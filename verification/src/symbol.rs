//! The symbol name generator.
//!
//! A function exposed over the boundary must be exported under a name the
//! host runtime's dynamic loader derives from the host-side package
//! namespace and the function's own name.  This module validates the
//! namespace string and derives the mangled export name, and models the
//! compile-time rewrite that attaches the boundary calling convention.

use vstd::prelude::*;

verus! {

/// True of the characters that may not occur anywhere in a package
/// namespace.
pub open spec fn forbidden_char(c: char) -> bool {
    ||| c == ' '
    ||| c == ','
    ||| c == ':'
    ||| c == ';'
    ||| c == '|'
    ||| c == '\\'
    ||| c == '/'
    ||| c == '!'
    ||| c == '@'
    ||| c == '#'
    ||| c == '%'
    ||| c == '^'
    ||| c == '&'
    ||| c == '*'
    ||| c == '('
    ||| c == ')'
    ||| c == '{'
    ||| c == '}'
    ||| c == '['
    ||| c == ']'
    ||| c == '-'
    ||| c == '`'
    ||| c == '~'
    ||| c == '\t'
    ||| c == '\n'
    ||| c == '\r'
}

/// True of the decimal digits, which may not begin a namespace segment.
pub open spec fn digit_char(c: char) -> bool {
    ||| c == '0'
    ||| c == '1'
    ||| c == '2'
    ||| c == '3'
    ||| c == '4'
    ||| c == '5'
    ||| c == '6'
    ||| c == '7'
    ||| c == '8'
    ||| c == '9'
}

/// A valid namespace is a non-empty, '.'-separated list of identifiers:
/// no forbidden character occurs anywhere, no segment is empty (so the
/// string neither starts nor ends with '.', and no two dots are adjacent),
/// and no segment starts with a digit.
pub open spec fn valid_namespace_spec(s: Seq<char>) -> bool {
    &&& forall|i: int| 0 <= i < s.len() ==> !forbidden_char(#[trigger] s[i])
    &&& s.len() > 0
    &&& s[0] != '.'
    &&& !digit_char(s[0])
    &&& s[s.len() - 1] != '.'
    &&& forall|i: int|
        0 <= i < s.len() - 1 && #[trigger] s[i] == '.' ==> s[i + 1] != '.' && !digit_char(s[i + 1])
}

/// Decides whether `c` is forbidden anywhere in a namespace.
fn is_forbidden(c: char) -> (r: bool)
    ensures
        r == forbidden_char(c),
{
    c == ' ' || c == ',' || c == ':' || c == ';' || c == '|' || c == '\\' || c == '/' || c == '!'
        || c == '@' || c == '#' || c == '%' || c == '^' || c == '&' || c == '*' || c == '('
        || c == ')' || c == '{' || c == '}' || c == '[' || c == ']' || c == '-' || c == '`'
        || c == '~' || c == '\t' || c == '\n' || c == '\r'
}

/// Decides whether `c` is a decimal digit.
fn is_digit(c: char) -> (r: bool)
    ensures
        r == digit_char(c),
{
    c == '0' || c == '1' || c == '2' || c == '3' || c == '4' || c == '5' || c == '6' || c == '7'
        || c == '8' || c == '9'
}

/// Checks that `namespace` looks like a valid host package name: a
/// '.'-separated list of identifiers, none empty, none starting with a
/// digit, none containing a forbidden character.
pub fn valid_namespace(namespace: &str) -> (r: bool)
    ensures
        r == valid_namespace_spec(namespace@),
{
    let n = namespace.unicode_len();
    if n == 0 {
        return false;
    }
    let mut i: usize = 0;
    // True when the next character is expected to begin a new segment.
    let mut at_start: bool = true;
    while i < n
        invariant
            n == namespace@.len(),
            n > 0,
            0 <= i <= n,
            forall|j: int| 0 <= j < i ==> !forbidden_char(#[trigger] namespace@[j]),
            at_start == (i == 0 || namespace@[i - 1] == '.'),
            i > 0 ==> namespace@[0] != '.' && !digit_char(namespace@[0]),
            forall|j: int|
                0 <= j < i - 1 && #[trigger] namespace@[j] == '.' ==> namespace@[j + 1] != '.'
                    && !digit_char(namespace@[j + 1]),
        decreases n - i,
    {
        let c = namespace.get_char(i);
        if is_forbidden(c) {
            return false;
        }
        if at_start {
            if c == '.' || is_digit(c) {
                return false;
            }
            at_start = false;
        } else if c == '.' {
            at_start = true;
        }
        i = i + 1;
    }
    !at_start
}

/// The escape of one function-name character: a literal underscore becomes
/// the two-character escape `_1`; every other character stands unchanged.
pub open spec fn escape_char(c: char) -> Seq<char> {
    if c == '_' {
        seq!['_', '1']
    } else {
        seq![c]
    }
}

/// The rewrite of one namespace character: underscores are escaped as in
/// [`escape_char`], and the '.' separators become single underscores.
pub open spec fn mangle_char(c: char) -> Seq<char> {
    if c == '_' {
        seq!['_', '1']
    } else if c == '.' {
        seq!['_']
    } else {
        seq![c]
    }
}

/// The escaped function name: each character escaped by [`escape_char`],
/// in order.
pub open spec fn escape_name(s: Seq<char>) -> Seq<char>
    decreases s.len(),
{
    if s.len() == 0 {
        Seq::empty()
    } else {
        escape_name(s.drop_last()) + escape_char(s.last())
    }
}

/// The mangled namespace: each character rewritten by [`mangle_char`], in
/// order.  Escaping underscores first and then rewriting separators is
/// equivalent to this single pass, since escaping introduces no new '.'.
pub open spec fn mangle_namespace(s: Seq<char>) -> Seq<char>
    decreases s.len(),
{
    if s.len() == 0 {
        Seq::empty()
    } else {
        mangle_namespace(s.drop_last()) + mangle_char(s.last())
    }
}

/// The export name the host loader resolves: `Java_`, the mangled
/// namespace, an underscore, and the escaped function name.
pub open spec fn jni_fn_name_spec(namespace: Seq<char>, fn_name: Seq<char>) -> Seq<char> {
    "Java_"@ + mangle_namespace(namespace) + "_"@ + escape_name(fn_name)
}

/// `s` with every occurrence of the character `from` replaced by `to`.
pub open spec fn replace_char(s: Seq<char>, from: char, to: Seq<char>) -> Seq<char>
    decreases s.len(),
{
    if s.len() == 0 {
        Seq::empty()
    } else {
        replace_char(s.drop_last(), from, to) + (if s.last() == from {
            to
        } else {
            seq![s.last()]
        })
    }
}

/// Replacement distributes over concatenation.
proof fn lemma_replace_char_concat(a: Seq<char>, b: Seq<char>, from: char, to: Seq<char>)
    ensures
        replace_char(a + b, from, to) == replace_char(a, from, to) + replace_char(b, from, to),
    decreases b.len(),
{
    if b.len() == 0 {
        assert(a + b =~= a);
        assert(replace_char(a, from, to) + replace_char(b, from, to) =~= replace_char(
            a,
            from,
            to,
        ));
    } else {
        lemma_replace_char_concat(a, b.drop_last(), from, to);
        assert((a + b).drop_last() =~= a + b.drop_last());
        assert((a + b).last() == b.last());
        assert(replace_char(a, from, to) + (replace_char(b.drop_last(), from, to) + (if b.last()
            == from {
            to
        } else {
            seq![b.last()]
        })) =~= (replace_char(a, from, to) + replace_char(b.drop_last(), from, to)) + (if b.last()
            == from {
            to
        } else {
            seq![b.last()]
        }));
    }
}

/// Escaping the function name is exactly the replacement of every
/// underscore by the two-character escape.
pub proof fn lemma_escape_name_is_replace(s: Seq<char>)
    ensures
        escape_name(s) == replace_char(s, '_', seq!['_', '1']),
    decreases s.len(),
{
    if s.len() > 0 {
        lemma_escape_name_is_replace(s.drop_last());
    }
}

/// Mangling the namespace is exactly the two replacements the name
/// grammar prescribes, in their order: first every underscore becomes the
/// two-character escape, then every '.' separator becomes a single
/// underscore.  The single pass and the two passes agree because the
/// first replacement introduces no new '.'.
pub proof fn lemma_mangle_namespace_order(s: Seq<char>)
    ensures
        mangle_namespace(s) == replace_char(
            replace_char(s, '_', seq!['_', '1']),
            '.',
            seq!['_'],
        ),
    decreases s.len(),
{
    if s.len() > 0 {
        lemma_mangle_namespace_order(s.drop_last());
        let escaped_prefix = replace_char(s.drop_last(), '_', seq!['_', '1']);
        let chunk = if s.last() == '_' {
            seq!['_', '1']
        } else {
            seq![s.last()]
        };
        lemma_replace_char_concat(escaped_prefix, chunk, '.', seq!['_']);
        let dot_to: Seq<char> = seq!['_'];
        assert(replace_char(Seq::<char>::empty(), '.', dot_to) == Seq::<char>::empty());
        if s.last() == '_' {
            let underscore: Seq<char> = seq!['_'];
            assert(chunk.drop_last() =~= underscore);
            assert(chunk.last() == '1');
            assert(underscore.drop_last() =~= Seq::<char>::empty());
            assert(underscore.last() == '_');
            assert(replace_char(underscore, '.', dot_to) =~= underscore);
            assert(replace_char(chunk, '.', dot_to) =~= chunk);
        } else if s.last() == '.' {
            assert(chunk.drop_last() =~= Seq::<char>::empty());
            assert(chunk.last() == '.');
            assert(replace_char(chunk, '.', dot_to) =~= dot_to);
        } else {
            assert(chunk.drop_last() =~= Seq::<char>::empty());
            assert(chunk.last() == s.last());
            assert(replace_char(chunk, '.', dot_to) =~= chunk);
        }
        assert(mangle_namespace(s) =~= replace_char(
            replace_char(s, '_', seq!['_', '1']),
            '.',
            seq!['_'],
        ));
    }
}

/// The decoding a mangled name admits: an underscore followed by `1` is
/// an escaped literal underscore, any other underscore is a rewritten
/// separator, and every other character stands for itself.
pub open spec fn unmangle(s: Seq<char>) -> Seq<char>
    decreases s.len(),
{
    if s.len() == 0 {
        Seq::empty()
    } else if s[0] == '_' {
        if s.len() >= 2 && s[1] == '1' {
            seq!['_'] + unmangle(s.skip(2))
        } else {
            seq!['.'] + unmangle(s.skip(1))
        }
    } else {
        seq![s[0]] + unmangle(s.skip(1))
    }
}

/// The mangling can be unfolded from the front as well: the first
/// character's rewrite, then the mangled remainder.
proof fn lemma_mangle_front(s: Seq<char>)
    requires
        s.len() > 0,
    ensures
        mangle_namespace(s) == mangle_char(s[0]) + mangle_namespace(s.skip(1)),
    decreases s.len(),
{
    if s.len() == 1 {
        assert(s.drop_last() =~= Seq::<char>::empty());
        assert(s.skip(1) =~= Seq::<char>::empty());
        assert(mangle_namespace(s) =~= mangle_char(s[0]) + mangle_namespace(s.skip(1)));
    } else {
        let body = s.drop_last();
        lemma_mangle_front(body);
        assert(body.skip(1) =~= s.skip(1).drop_last());
        assert(s.skip(1).last() == s.last());
        assert(mangle_char(s[0]) + (mangle_namespace(s.skip(1).drop_last()) + mangle_char(
            s.last(),
        )) =~= (mangle_char(s[0]) + mangle_namespace(s.skip(1).drop_last())) + mangle_char(
            s.last(),
        ));
        assert(mangle_namespace(s) =~= mangle_char(s[0]) + mangle_namespace(s.skip(1)));
    }
}

/// Decoding a mangled string in front of any remainder `r` restores the
/// string and leaves `r` to decode, provided no `1` can follow a
/// rewritten separator: neither inside `s` (no separator is followed by a
/// `1`) nor at the boundary (when `s` ends with a separator, `r` does not
/// begin with a `1`).
proof fn lemma_unmangle_mangle(s: Seq<char>, r: Seq<char>)
    requires
        forall|i: int| 0 <= i < s.len() - 1 && #[trigger] s[i] == '.' ==> s[i + 1] != '1',
        s.len() > 0 && s[s.len() - 1] == '.' && r.len() > 0 ==> r[0] != '1',
    ensures
        unmangle(mangle_namespace(s) + r) == s + unmangle(r),
    decreases s.len(),
{
    if s.len() == 0 {
        assert(mangle_namespace(s) + r =~= r);
        assert(s + unmangle(r) =~= unmangle(r));
    } else {
        let c = s[0];
        let rest = s.skip(1);
        lemma_mangle_front(s);
        let tail = mangle_namespace(rest) + r;
        assert(mangle_namespace(s) + r =~= mangle_char(c) + tail);
        lemma_unmangle_mangle(rest, r);
        let combined = mangle_char(c) + tail;
        if c == '_' {
            assert(combined[0] == '_' && combined.len() >= 2 && combined[1] == '1');
            assert(combined.skip(2) =~= tail);
            assert(seq!['_'] + (rest + unmangle(r)) =~= s + unmangle(r));
        } else if c == '.' {
            assert(combined[0] == '_');
            if combined.len() >= 2 {
                assert(combined[1] == tail[0]);
                if rest.len() > 0 {
                    if rest[0] == '_' || rest[0] == '.' {
                        lemma_mangle_front(rest);
                        assert(tail[0] == '_');
                    } else {
                        lemma_mangle_front(rest);
                        assert(tail[0] == rest[0]);
                        assert(rest[0] != '1');
                    }
                } else {
                    assert(mangle_namespace(rest) =~= Seq::<char>::empty());
                    assert(tail =~= r);
                    assert(r[0] != '1');
                }
                assert(combined[1] != '1');
            }
            assert(combined.skip(1) =~= tail);
            assert(seq!['.'] + (rest + unmangle(r)) =~= s + unmangle(r));
        } else {
            assert(combined[0] == c && c != '_');
            assert(combined.skip(1) =~= tail);
            assert(seq![c] + (rest + unmangle(r)) =~= s + unmangle(r));
        }
    }
}

/// On a string free of separators the function-name escape and the
/// namespace mangling agree: both only escape underscores.
proof fn lemma_escape_without_dots(f: Seq<char>)
    requires
        forall|i: int| 0 <= i < f.len() ==> f[i] != '.',
    ensures
        escape_name(f) == mangle_namespace(f),
    decreases f.len(),
{
    if f.len() > 0 {
        lemma_escape_without_dots(f.drop_last());
    }
}

/// The shape of a function name: a non-empty identifier, free of
/// namespace separators, not beginning with a digit.
pub open spec fn identifier_like(f: Seq<char>) -> bool {
    &&& f.len() > 0
    &&& !digit_char(f[0])
    &&& forall|i: int| 0 <= i < f.len() ==> f[i] != '.'
}

/// Decoding the payload of an export name restores the namespace, a
/// separator, and the function name.
proof fn lemma_unmangle_payload(ns: Seq<char>, f: Seq<char>)
    requires
        valid_namespace_spec(ns),
        identifier_like(f),
    ensures
        unmangle(mangle_namespace(ns) + "_"@ + escape_name(f)) == ns + seq!['.'] + f,
{
    reveal_strlit("_");
    lemma_escape_without_dots(f);
    let dotted = ns + seq!['.'];
    assert(dotted.drop_last() =~= ns);
    assert(dotted.last() == '.');
    assert(mangle_namespace(dotted) =~= mangle_namespace(ns) + "_"@);
    lemma_mangle_front(f);
    assert(mangle_namespace(f).len() > 0);
    let first = mangle_namespace(f)[0];
    assert(first == mangle_char(f[0])[0]);
    assert(first != '1');
    assert forall|i: int| 0 <= i < dotted.len() - 1 && #[trigger] dotted[i] == '.' implies dotted[i
        + 1] != '1' by {
        assert(dotted[i] == ns[i]);
        if i < ns.len() - 1 {
            assert(ns[i + 1] != '1');
        } else {
            assert(ns[ns.len() - 1] != '.');
        }
    }
    lemma_unmangle_mangle(dotted, mangle_namespace(f));
    lemma_unmangle_mangle(f, Seq::<char>::empty());
    assert(mangle_namespace(f) + Seq::<char>::empty() =~= mangle_namespace(f));
    assert(unmangle(Seq::<char>::empty()) =~= Seq::<char>::empty());
    assert(f + unmangle(Seq::<char>::empty()) =~= f);
    assert(mangle_namespace(ns) + "_"@ + escape_name(f) =~= mangle_namespace(dotted)
        + mangle_namespace(f));
    assert(dotted + unmangle(mangle_namespace(f)) =~= ns + seq!['.'] + f);
}

/// The escape is uniqueness-preserving: two boundary-exposed functions
/// with distinct valid namespaces or distinct function names never share
/// an export name, so the loader can never bind one export to two
/// functions.
pub proof fn lemma_export_name_injective(
    ns1: Seq<char>,
    f1: Seq<char>,
    ns2: Seq<char>,
    f2: Seq<char>,
)
    requires
        valid_namespace_spec(ns1),
        identifier_like(f1),
        valid_namespace_spec(ns2),
        identifier_like(f2),
        jni_fn_name_spec(ns1, f1) == jni_fn_name_spec(ns2, f2),
    ensures
        ns1 == ns2,
        f1 == f2,
{
    reveal_strlit("Java_");
    let p1 = mangle_namespace(ns1) + "_"@ + escape_name(f1);
    let p2 = mangle_namespace(ns2) + "_"@ + escape_name(f2);
    assert(("Java_"@ + p1).skip(5) =~= p1);
    assert(("Java_"@ + p2).skip(5) =~= p2);
    assert(jni_fn_name_spec(ns1, f1) =~= "Java_"@ + p1);
    assert(jni_fn_name_spec(ns2, f2) =~= "Java_"@ + p2);
    assert(p1 == p2);
    lemma_unmangle_payload(ns1, f1);
    lemma_unmangle_payload(ns2, f2);
    let decoded = ns1 + seq!['.'] + f1;
    assert(decoded == ns2 + seq!['.'] + f2);
    let a = ns1.len() as int;
    let b = ns2.len() as int;
    assert(decoded[a] == '.');
    assert((ns2 + seq!['.'] + f2)[b] == '.');
    if a < b {
        assert(decoded[b] == f1[b - a - 1]);
        assert(f1[b - a - 1] != '.');
        assert(false);
    }
    if b < a {
        assert(decoded[a] == f2[a - b - 1]);
        assert(f2[a - b - 1] != '.');
        assert(false);
    }
    assert(ns1 =~= ns2) by {
        assert forall|i: int| 0 <= i < ns1.len() implies ns1[i] == ns2[i] by {
            assert(decoded[i] == ns1[i]);
            assert((ns2 + seq!['.'] + f2)[i] == ns2[i]);
        }
    }
    assert(f1 =~= f2) by {
        assert forall|j: int| 0 <= j < f1.len() implies f1[j] == f2[j] by {
            assert(decoded[a + 1 + j] == f1[j]);
            assert((ns2 + seq!['.'] + f2)[a + 1 + j] == f2[j]);
        }
    }
}

/// Appends `mangle_char(c)` (or, with `dots` false, `escape_char(c)`) to
/// `out`.
fn push_escaped(out: &mut String, source: &str, i: usize, dots: bool)
    requires
        i < source@.len(),
        i < usize::MAX,
    ensures
        dots ==> final(out)@ == old(out)@ + mangle_char(source@[i as int]),
        !dots ==> final(out)@ == old(out)@ + escape_char(source@[i as int]),
{
    let c = source.get_char(i);
    if c == '_' {
        proof {
            reveal_strlit("_1");
        }
        out.append("_1");
        assert(final(out)@ =~= old(out)@ + mangle_char(source@[i as int]));
    } else if dots && c == '.' {
        proof {
            reveal_strlit("_");
        }
        out.append("_");
        assert(final(out)@ =~= old(out)@ + mangle_char(source@[i as int]));
    } else {
        let piece = source.substring_char(i, i + 1);
        out.append(piece);
        assert(final(out)@ =~= old(out)@ + escape_char(source@[i as int]));
    }
}

/// Derives the export name for a boundary-exposed function from the host
/// package namespace and the function's own name.
///
/// Every underscore in either input is escaped to `_1`, and then the '.'
/// separators of the namespace become single underscores, as the host
/// loader's name grammar prescribes.  The escape preserves uniqueness:
/// distinct valid inputs give distinct export names, which
/// [`lemma_export_name_injective`] proves.
pub fn create_jni_fn_name(namespace: &str, fn_name: &str) -> (r: String)
    ensures
        r@ == jni_fn_name_spec(namespace@, fn_name@),
{
    let mut out = String::from_str("Java_");
    let ns_len = namespace.unicode_len();
    let mut i: usize = 0;
    while i < ns_len
        invariant
            ns_len == namespace@.len(),
            0 <= i <= ns_len,
            out@ == "Java_"@ + mangle_namespace(namespace@.take(i as int)),
        decreases ns_len - i,
    {
        push_escaped(&mut out, namespace, i, true);
        proof {
            let t = namespace@.take(i + 1);
            assert(t.drop_last() =~= namespace@.take(i as int));
            assert(t.last() == namespace@[i as int]);
        }
        i = i + 1;
    }
    proof {
        assert(namespace@.take(ns_len as int) =~= namespace@);
        reveal_strlit("_");
    }
    out.append("_");
    let f_len = fn_name.unicode_len();
    let mut j: usize = 0;
    while j < f_len
        invariant
            f_len == fn_name@.len(),
            0 <= j <= f_len,
            out@ == "Java_"@ + mangle_namespace(namespace@) + "_"@ + escape_name(
                fn_name@.take(j as int),
            ),
        decreases f_len - j,
    {
        push_escaped(&mut out, fn_name, j, false);
        proof {
            let t = fn_name@.take(j + 1);
            assert(t.drop_last() =~= fn_name@.take(j as int));
            assert(t.last() == fn_name@[j as int]);
        }
        j = j + 1;
    }
    proof {
        assert(fn_name@.take(f_len as int) =~= fn_name@);
    }
    out
}

/// The shape of a function item, as far as the boundary rewrite reads and
/// rewrites it: its name, its visibility, its declared calling convention
/// (if any), whether it is exempt from name mangling by the toolchain, and
/// whether its first parameter is the environment handle.
pub struct FnItem {
    /// The function's name; after the rewrite, the export name.
    pub name: String,
    /// Whether the function is declared public.
    pub is_public: bool,
    /// The explicitly declared calling convention, if any.
    pub abi: Option<String>,
    /// Whether the toolchain is told to keep the name unmangled.
    pub no_mangle: bool,
    /// Whether the first parameter is the boundary environment handle.
    pub has_env_param: bool,
}

impl FnItem {
    /// An exact copy of this item.
    pub fn duplicate(&self) -> (r: FnItem)
        ensures
            r == *self,
    {
        FnItem {
            name: self.name.clone(),
            is_public: self.is_public,
            abi: match &self.abi {
                Some(a) => Some(a.clone()),
                None => None,
            },
            no_mangle: self.no_mangle,
            has_env_param: self.has_env_param,
        }
    }
}

/// Why the boundary rewrite rejected a function, each reported as a
/// compile-time diagnostic.
#[derive(PartialEq, Eq, Debug, Clone, Copy)]
pub enum ExpandError {
    /// The supplied namespace is not a valid host package name.
    InvalidNamespace,
    /// The function's first parameter is not the environment handle.
    MissingEnvParam,
    /// The function already declares an explicit calling convention.
    AbiAlreadySpecified,
    /// The function is not declared public.
    NotPublic,
}

/// The diagnostic, if any, that the boundary rewrite reports for `item`
/// under `namespace`.
pub open spec fn expand_error_spec(namespace: Seq<char>, item: FnItem) -> Option<ExpandError> {
    if !valid_namespace_spec(namespace) {
        Some(ExpandError::InvalidNamespace)
    } else if !item.has_env_param {
        Some(ExpandError::MissingEnvParam)
    } else if item.abi is Some {
        Some(ExpandError::AbiAlreadySpecified)
    } else if !item.is_public {
        Some(ExpandError::NotPublic)
    } else {
        None
    }
}

/// Rewrites `item` into its boundary-exposed form: renamed to the mangled
/// export name, exempted from toolchain name mangling, and given the
/// boundary calling convention.
///
/// On a validation failure the diagnostic is returned and the item comes
/// back unchanged, so that the caller can still emit it and unrelated
/// diagnostics on its body are not suppressed.
pub fn jni_fn(namespace: &str, item: &FnItem) -> (r: (FnItem, Option<ExpandError>))
    ensures
        r.1 == expand_error_spec(namespace@, *item),
        r.1 is Some ==> r.0 == *item,
        r.1 is None ==> {
            &&& r.0.name@ == jni_fn_name_spec(namespace@, item.name@)
            &&& r.0.is_public
            &&& r.0.abi matches Some(a) && a@ == "system"@
            &&& r.0.no_mangle
            &&& r.0.has_env_param == item.has_env_param
        },
{
    if !valid_namespace(namespace) {
        return (item.duplicate(), Some(ExpandError::InvalidNamespace));
    }
    if !item.has_env_param {
        return (item.duplicate(), Some(ExpandError::MissingEnvParam));
    }
    if item.abi.is_some() {
        return (item.duplicate(), Some(ExpandError::AbiAlreadySpecified));
    }
    if !item.is_public {
        return (item.duplicate(), Some(ExpandError::NotPublic));
    }
    let expanded = FnItem {
        name: create_jni_fn_name(namespace, item.name.as_str()),
        is_public: true,
        abi: Some(String::from_str("system")),
        no_mangle: true,
        has_env_param: item.has_env_param,
    };
    (expanded, None)
}

} // verus!

