//! The plain data and rules that the page-scraping collaborators hand
//! across the boundary.
//!
//! The scraping itself is an opaque native function body that merely uses
//! the marshalling layer; what stands here is the part of it that is pure
//! data and rules: the category code table, the thumbnail key rule, and
//! the result records with their conversion descriptors.

use vstd::prelude::*;

use crate::convert::ConvertError;
use crate::convert::FromJava;
use crate::convert::IntoJava;
use crate::convert::JavaObjectKind;
use crate::convert::JavaRoundTrip;
use crate::text::str_eq;
use crate::text::strip_all_prefix;
use crate::text::strip_all_prefix_spec;
use crate::value::JavaValue;
use crate::value::JavaValueModel;
use crate::value::lemma_model_seq;
use crate::value::model_seq;

verus! {

broadcast use vstd::std_specs::vec::group_vec_axioms, vstd::seq::group_seq_axioms;

/// The category code for a category name: each known name has a fixed
/// power-of-two code, and every unknown name maps to the catch-all code.
pub open spec fn category_code_spec(s: Seq<char>) -> i32 {
    if s == "misc"@ {
        0x1
    } else if s == "doujinshi"@ {
        0x2
    } else if s == "manga"@ {
        0x4
    } else if s == "artistcg"@ || s == "artist cg sets"@ || s == "artist cg"@ {
        0x8
    } else if s == "gamecg"@ || s == "game cg sets"@ || s == "game cg"@ {
        0x10
    } else if s == "imageset"@ || s == "image sets"@ || s == "image set"@ {
        0x20
    } else if s == "cosplay"@ {
        0x40
    } else if s == "asianporn"@ || s == "asian porn"@ {
        0x80
    } else if s == "non-h"@ {
        0x100
    } else if s == "western"@ {
        0x200
    } else if s == "private"@ {
        0x400
    } else {
        0x800
    }
}

/// Maps a lower-cased category name to its category code.
pub fn to_category_i32(category: &str) -> (r: i32)
    ensures
        r == category_code_spec(category@),
{
    if str_eq(category, "misc") {
        0x1
    } else if str_eq(category, "doujinshi") {
        0x2
    } else if str_eq(category, "manga") {
        0x4
    } else if str_eq(category, "artistcg") || str_eq(category, "artist cg sets") || str_eq(
        category,
        "artist cg",
    ) {
        0x8
    } else if str_eq(category, "gamecg") || str_eq(category, "game cg sets") || str_eq(
        category,
        "game cg",
    ) {
        0x10
    } else if str_eq(category, "imageset") || str_eq(category, "image sets") || str_eq(
        category,
        "image set",
    ) {
        0x20
    } else if str_eq(category, "cosplay") {
        0x40
    } else if str_eq(category, "asianporn") || str_eq(category, "asian porn") {
        0x80
    } else if str_eq(category, "non-h") {
        0x100
    } else if str_eq(category, "western") {
        0x200
    } else if str_eq(category, "private") {
        0x400
    } else {
        0x800
    }
}

/// The thumbnail key of a thumbnail URL: the URL with the known mirror
/// prefixes and the `t/` path prefix stripped from its front, in that
/// order.
pub open spec fn thumb_key_spec(url: Seq<char>) -> Seq<char> {
    strip_all_prefix_spec(
        strip_all_prefix_spec(
            strip_all_prefix_spec(url, "https://ehgt.org/"@),
            "https://s.exhentai.org/"@,
        ),
        "t/"@,
    )
}

/// Extracts the thumbnail key from a thumbnail URL.
pub fn get_thumb_key(url: &str) -> (r: String)
    ensures
        r@ == thumb_key_spec(url@),
{
    let stripped = strip_all_prefix(
        strip_all_prefix(strip_all_prefix(url, "https://ehgt.org/"), "https://s.exhentai.org/"),
        "t/",
    );
    String::from_str(stripped)
}

/// A user's image quota, as scraped from the home page.
#[derive(PartialEq, Eq, Debug, Clone, Copy)]
#[allow(non_snake_case)]
pub struct Limits {
    /// The quota used so far.
    pub current: i32,
    /// The full quota.
    pub maximum: i32,
    /// The cost of resetting the quota.
    pub resetCost: i32,
}

/// The mathematical model of a [`Limits`] record.
#[allow(non_snake_case)]
pub struct LimitsModel {
    /// The quota used so far.
    pub current: i32,
    /// The full quota.
    pub maximum: i32,
    /// The cost of resetting the quota.
    pub resetCost: i32,
}

impl DeepView for Limits {
    type V = LimitsModel;

    open spec fn deep_view(&self) -> LimitsModel {
        LimitsModel { current: self.current, maximum: self.maximum, resetCost: self.resetCost }
    }
}

impl Default for Limits {
    /// The empty record: every quota field zero.
    fn default() -> (r: Limits)
        ensures
            r.current == 0,
            r.maximum == 0,
            r.resetCost == 0,
    {
        Limits { current: 0, maximum: 0, resetCost: 0 }
    }
}

/// The constructor arguments a [`Limits`] record is marshalled through,
/// in field order.
pub open spec fn limits_args_model(m: LimitsModel) -> Seq<JavaValueModel> {
    seq![
        JavaValueModel::Int(m.current),
        JavaValueModel::Int(m.maximum),
        JavaValueModel::Int(m.resetCost),
    ]
}

impl IntoJava for Limits {
    open spec fn jni_signature_spec() -> Seq<char> {
        "Lcom/hippo/ehviewer/client/parser/Limits;"@
    }

    /// The record converts by calling the host class's constructor with
    /// the converted fields, in field order.
    open spec fn to_java_model(m: LimitsModel) -> JavaValueModel {
        JavaValueModel::Instance(
            "com/hippo/ehviewer/client/parser/Limits"@,
            limits_args_model(m),
        )
    }

    fn jni_signature() -> &'static str {
        "Lcom/hippo/ehviewer/client/parser/Limits;"
    }

    fn into_java(self) -> (r: JavaValue) {
        let args = vec![
            JavaValue::Int(self.current),
            JavaValue::Int(self.maximum),
            JavaValue::Int(self.resetCost),
        ];
        proof {
            lemma_model_seq(args@);
            assert(model_seq(args@) =~= limits_args_model(self.deep_view()));
        }
        JavaValue::Instance(String::from_str("com/hippo/ehviewer/client/parser/Limits"), args)
    }
}

impl FromJava for Limits {
    open spec fn from_java_model(m: JavaValueModel) -> Option<LimitsModel> {
        match m {
            JavaValueModel::Instance(class, args) => if class
                == "com/hippo/ehviewer/client/parser/Limits"@ && args.len() == 3 {
                match (args[0], args[1], args[2]) {
                    (
                        JavaValueModel::Int(current),
                        JavaValueModel::Int(maximum),
                        JavaValueModel::Int(reset_cost),
                    ) => Some(LimitsModel { current, maximum, resetCost: reset_cost }),
                    _ => None,
                }
            } else {
                None
            },
            _ => None,
        }
    }

    fn from_java(v: &JavaValue) -> (r: Result<Self, ConvertError>) {
        match v {
            JavaValue::Instance(class, args) => {
                proof {
                    lemma_model_seq(args@);
                }
                if !str_eq(class.as_str(), "com/hippo/ehviewer/client/parser/Limits") {
                    return Err(ConvertError::TypeMismatch);
                }
                if args.len() != 3 {
                    return Err(ConvertError::TypeMismatch);
                }
                let current = match &args[0] {
                    JavaValue::Int(n) => *n,
                    _ => {
                        return Err(ConvertError::TypeMismatch);
                    },
                };
                let maximum = match &args[1] {
                    JavaValue::Int(n) => *n,
                    _ => {
                        return Err(ConvertError::TypeMismatch);
                    },
                };
                let reset_cost = match &args[2] {
                    JavaValue::Int(n) => *n,
                    _ => {
                        return Err(ConvertError::TypeMismatch);
                    },
                };
                Ok(Limits { current, maximum, resetCost: reset_cost })
            },
            _ => Err(ConvertError::TypeMismatch),
        }
    }
}

impl JavaObjectKind for Limits {
    proof fn to_java_is_nonnull_object(m: LimitsModel) {
    }
}

impl JavaRoundTrip for Limits {
    open spec fn valid_model(m: LimitsModel) -> bool {
        true
    }

    proof fn round_trip(m: LimitsModel) {
    }
}

/// One torrent listing, as scraped from a torrent page.
#[derive(PartialEq, Eq, Debug, Clone)]
pub struct Torrent {
    /// When the torrent was posted.
    pub posted: String,
    /// The torrent's size, as displayed.
    pub size: String,
    /// The seed count.
    pub seeds: i32,
    /// The peer count.
    pub peers: i32,
    /// The download count.
    pub downloads: i32,
    /// The torrent's URL.
    pub url: String,
    /// The torrent's name.
    pub name: String,
}

/// The mathematical model of a [`Torrent`] record.
pub struct TorrentModel {
    /// When the torrent was posted.
    pub posted: Seq<char>,
    /// The torrent's size, as displayed.
    pub size: Seq<char>,
    /// The seed count.
    pub seeds: i32,
    /// The peer count.
    pub peers: i32,
    /// The download count.
    pub downloads: i32,
    /// The torrent's URL.
    pub url: Seq<char>,
    /// The torrent's name.
    pub name: Seq<char>,
}

impl DeepView for Torrent {
    type V = TorrentModel;

    open spec fn deep_view(&self) -> TorrentModel {
        TorrentModel {
            posted: self.posted@,
            size: self.size@,
            seeds: self.seeds,
            peers: self.peers,
            downloads: self.downloads,
            url: self.url@,
            name: self.name@,
        }
    }
}

impl Default for Torrent {
    /// The empty record: every string empty and every count zero.
    fn default() -> (r: Torrent)
        ensures
            r.posted@ == Seq::<char>::empty(),
            r.size@ == Seq::<char>::empty(),
            r.seeds == 0,
            r.peers == 0,
            r.downloads == 0,
            r.url@ == Seq::<char>::empty(),
            r.name@ == Seq::<char>::empty(),
    {
        Torrent {
            posted: String::new(),
            size: String::new(),
            seeds: 0,
            peers: 0,
            downloads: 0,
            url: String::new(),
            name: String::new(),
        }
    }
}

/// The constructor arguments a [`Torrent`] record is marshalled through,
/// in field order.
pub open spec fn torrent_args_model(m: TorrentModel) -> Seq<JavaValueModel> {
    seq![
        JavaValueModel::Str(m.posted),
        JavaValueModel::Str(m.size),
        JavaValueModel::Int(m.seeds),
        JavaValueModel::Int(m.peers),
        JavaValueModel::Int(m.downloads),
        JavaValueModel::Str(m.url),
        JavaValueModel::Str(m.name),
    ]
}

impl IntoJava for Torrent {
    open spec fn jni_signature_spec() -> Seq<char> {
        "Lcom/hippo/ehviewer/client/parser/Torrent;"@
    }

    /// The record converts by calling the host class's constructor with
    /// the converted fields, in field order.
    open spec fn to_java_model(m: TorrentModel) -> JavaValueModel {
        JavaValueModel::Instance(
            "com/hippo/ehviewer/client/parser/Torrent"@,
            torrent_args_model(m),
        )
    }

    fn jni_signature() -> &'static str {
        "Lcom/hippo/ehviewer/client/parser/Torrent;"
    }

    fn into_java(self) -> (r: JavaValue) {
        let args = vec![
            JavaValue::Str(self.posted),
            JavaValue::Str(self.size),
            JavaValue::Int(self.seeds),
            JavaValue::Int(self.peers),
            JavaValue::Int(self.downloads),
            JavaValue::Str(self.url),
            JavaValue::Str(self.name),
        ];
        proof {
            lemma_model_seq(args@);
            assert(model_seq(args@) =~= torrent_args_model(self.deep_view()));
        }
        JavaValue::Instance(String::from_str("com/hippo/ehviewer/client/parser/Torrent"), args)
    }
}

impl FromJava for Torrent {
    open spec fn from_java_model(m: JavaValueModel) -> Option<TorrentModel> {
        match m {
            JavaValueModel::Instance(class, args) => if class
                == "com/hippo/ehviewer/client/parser/Torrent"@ && args.len() == 7 {
                match (args[0], args[1], args[2], args[3], args[4], args[5], args[6]) {
                    (
                        JavaValueModel::Str(posted),
                        JavaValueModel::Str(size),
                        JavaValueModel::Int(seeds),
                        JavaValueModel::Int(peers),
                        JavaValueModel::Int(downloads),
                        JavaValueModel::Str(url),
                        JavaValueModel::Str(name),
                    ) => Some(TorrentModel { posted, size, seeds, peers, downloads, url, name }),
                    _ => None,
                }
            } else {
                None
            },
            _ => None,
        }
    }

    fn from_java(v: &JavaValue) -> (r: Result<Self, ConvertError>) {
        match v {
            JavaValue::Instance(class, args) => {
                proof {
                    lemma_model_seq(args@);
                }
                if !str_eq(class.as_str(), "com/hippo/ehviewer/client/parser/Torrent") {
                    return Err(ConvertError::TypeMismatch);
                }
                if args.len() != 7 {
                    return Err(ConvertError::TypeMismatch);
                }
                let posted = match &args[0] {
                    JavaValue::Str(s) => s.clone(),
                    _ => {
                        return Err(ConvertError::TypeMismatch);
                    },
                };
                let size = match &args[1] {
                    JavaValue::Str(s) => s.clone(),
                    _ => {
                        return Err(ConvertError::TypeMismatch);
                    },
                };
                let seeds = match &args[2] {
                    JavaValue::Int(n) => *n,
                    _ => {
                        return Err(ConvertError::TypeMismatch);
                    },
                };
                let peers = match &args[3] {
                    JavaValue::Int(n) => *n,
                    _ => {
                        return Err(ConvertError::TypeMismatch);
                    },
                };
                let downloads = match &args[4] {
                    JavaValue::Int(n) => *n,
                    _ => {
                        return Err(ConvertError::TypeMismatch);
                    },
                };
                let url = match &args[5] {
                    JavaValue::Str(s) => s.clone(),
                    _ => {
                        return Err(ConvertError::TypeMismatch);
                    },
                };
                let name = match &args[6] {
                    JavaValue::Str(s) => s.clone(),
                    _ => {
                        return Err(ConvertError::TypeMismatch);
                    },
                };
                Ok(Torrent { posted, size, seeds, peers, downloads, url, name })
            },
            _ => Err(ConvertError::TypeMismatch),
        }
    }
}

impl JavaObjectKind for Torrent {
    proof fn to_java_is_nonnull_object(m: TorrentModel) {
    }
}

impl JavaRoundTrip for Torrent {
    open spec fn valid_model(m: TorrentModel) -> bool {
        true
    }

    proof fn round_trip(m: TorrentModel) {
    }
}

} // verus!
