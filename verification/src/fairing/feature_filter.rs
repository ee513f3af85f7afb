//! Hiding the fields of a feature that was not asked for.
use crate::text::{push_char, texts};
use vstd::prelude::*;
use vstd::string::*;

verus! {

/// Remove any feature-specific fields unless requested.
///
/// A feature-specific field is one whose key contains two consecutive underscores.
/// All characters preceding those underscores is the feature name.
///
/// To enable a feature, the request names it in the `features` queryparam,
/// a comma separated list of features to enable.
///
/// By default, no features are enabled.
#[derive(Debug, PartialEq, Eq, Structural, Clone, Copy)]
pub struct FeatureFilter;

impl Default for FeatureFilter {
    fn default() -> (filter: Self)
        ensures
            filter == FeatureFilter,
    {
        FeatureFilter
    }
}

impl FeatureFilter {
    /// The filter, ready to be attached to a server.
    pub fn fairing() -> (filter: FeatureFilter)
        ensures
            filter == FeatureFilter,
    {
        FeatureFilter {  }
    }
}

/// A text in lower case.
pub uninterp spec fn lowercase(text: Seq<char>) -> Seq<char>;

/// `str::to_lowercase`: the text in lower case.
#[verifier::external_body]
fn to_lowercase(text: &str) -> (lower: String)
    ensures
        lower@ == lowercase(text@),
{
    text.to_lowercase()
}

/// Where the first two consecutive underscores of `key` begin, looking from `from` on.
pub open spec fn feature_end(key: Seq<char>, from: int) -> Option<int>
    decreases key.len() - from,
{
    if from < 0 || from + 1 >= key.len() {
        None
    } else if key[from] == '_' && key[from + 1] == '_' {
        Some(from)
    } else {
        feature_end(key, from + 1)
    }
}

/// The feature that a key belongs to: what comes before its first two consecutive
/// underscores. A key without them belongs to no feature.
pub open spec fn feature_of(key: Seq<char>) -> Option<Seq<char>> {
    match feature_end(key, 0) {
        Some(end) => Some(key.subrange(0, end)),
        None => None,
    }
}

/// Whether a field is hidden: it is where its key belongs to a feature that, in lower
/// case, is not among those that were asked for.
pub open spec fn is_hidden(key: Seq<char>, features: Seq<Seq<char>>) -> bool {
    feature_of(key) matches Some(feature) && !features.contains(lowercase(feature))
}

/// The pieces of a text between its commas. A text without commas is one piece.
pub open spec fn split_commas(text: Seq<char>) -> Seq<Seq<char>>
    decreases text.len(),
{
    if text.len() == 0 {
        seq![Seq::empty()]
    } else {
        let before = split_commas(text.drop_last());
        if text.last() == ',' {
            before.push(Seq::empty())
        } else {
            before.update(before.len() - 1, before.last().push(text.last()))
        }
    }
}

/// Each text of a list in lower case.
pub open spec fn lowercased(pieces: Seq<Seq<char>>) -> Seq<Seq<char>> {
    Seq::new(pieces.len(), |i: int| lowercase(pieces[i]))
}

/// The features that a query asks for: the pieces between its commas, in lower case.
pub open spec fn requested(query: Seq<char>) -> Seq<Seq<char>> {
    lowercased(split_commas(query))
}

/// The pieces of a text between its commas.
pub fn split(text: &str) -> (pieces: Vec<String>)
    ensures
        texts(pieces@) == split_commas(text@),
{
    let mut pieces: Vec<String> = Vec::new();
    let mut piece = String::new();
    for c in iter: text.chars()
        invariant
            iter.seq() == text@,
            split_commas(iter.seq().subrange(0, iter.index() as int)) == texts(pieces@).push(piece@),
    {
        let ghost done = iter.seq().subrange(0, iter.index() as int);
        let ghost more = iter.seq().subrange(0, iter.index() + 1);
        let ghost before = texts(pieces@);
        proof {
            assert(more.drop_last() =~= done);
            assert(more.last() == c);
            assert(before.push(piece@).last() == piece@);
        }
        if c == ',' {
            let ghost whole = piece@;
            pieces.push(piece);
            piece = String::new();
            proof {
                assert(texts(pieces@) =~= before.push(whole));
                assert(split_commas(more) =~= texts(pieces@).push(piece@));
            }
        } else {
            let ghost part = piece@;
            push_char(&mut piece, c);
            proof {
                assert(split_commas(more) =~= before.push(part).update(
                    before.len() as int,
                    part.push(c),
                ));
                assert(before.push(part).update(before.len() as int, part.push(c)) =~= before.push(
                    piece@,
                ));
            }
        }
    }
    proof {
        assert(text@.subrange(0, text@.len() as int) =~= text@);
    }
    let ghost before = texts(pieces@);
    let ghost last = piece@;
    pieces.push(piece);
    proof {
        assert(texts(pieces@) =~= before.push(last));
    }
    pieces
}

/// The feature that a key belongs to, if it belongs to one.
pub fn feature(key: &str) -> (name: Option<String>)
    ensures
        crate::controller::option_text(name) == feature_of(key@),
{
    let mut feature = String::new();
    let mut pending: bool = false;
    let mut found: bool = false;
    for c in iter: key.chars()
        invariant
            iter.seq() == key@,
            !found ==> ({
                let at = iter.index() as int;
                let start = if pending {
                    at - 1
                } else {
                    at
                };
                &&& feature_end(key@, 0) == feature_end(key@, start)
                &&& feature@ == key@.subrange(0, start)
                &&& pending ==> at >= 1 && key@[at - 1] == '_'
            }),
            found ==> feature_of(key@) == Some(feature@),
    {
        if !found {
            let ghost at = iter.index() as int;
            proof {
                assert(key@[at] == c);
            }
            if c == '_' {
                if pending {
                    proof {
                        assert(feature_end(key@, at - 1) == Some(at - 1));
                    }
                    found = true;
                } else {
                    pending = true;
                }
            } else {
                if pending {
                    push_char(&mut feature, '_');
                    proof {
                        assert(feature_end(key@, at - 1) == feature_end(key@, at));
                    }
                }
                push_char(&mut feature, c);
                pending = false;
                proof {
                    assert(feature_end(key@, at) == feature_end(key@, at + 1));
                    assert(feature@ =~= key@.subrange(0, at + 1));
                }
            }
        }
    }
    if found {
        Some(feature)
    } else {
        proof {
            assert(feature_end(key@, 0) is None);
        }
        None
    }
}

/// Whether `name` is one of `names`.
pub fn is_among(name: &str, names: &Vec<String>) -> (found: bool)
    ensures
        found == texts(names@).contains(name@),
{
    let mut i: usize = 0;
    while i < names.len()
        invariant
            i <= names.len(),
            forall|k: int| 0 <= k < i ==> texts(names@)[k] != name@,
        decreases names.len() - i,
    {
        proof {
            assert(texts(names@)[i as int] == names@[i as int]@);
        }
        if crate::text::str_eq(names[i].as_str(), name) {
            proof {
                assert(texts(names@).contains(name@));
            }
            return true;
        }
        i += 1;
    }
    false
}

impl FeatureFilter {
    /// The features that the `features` queryparam of a request asks for.
    pub fn features(query: &str) -> (features: Vec<String>)
        ensures
            texts(features@) == requested(query@),
    {
        let pieces = split(query);
        let mut features: Vec<String> = Vec::new();
        let mut i: usize = 0;
        while i < pieces.len()
            invariant
                i <= pieces.len(),
                texts(pieces@) == split_commas(query@),
                features@.len() == i,
                forall|k: int| 0 <= k < i ==> (#[trigger] features@[k])@ == lowercase(pieces@[k]@),
            decreases pieces.len() - i,
        {
            features.push(to_lowercase(pieces[i].as_str()));
            i += 1;
        }
        proof {
            assert(texts(pieces@).len() == pieces@.len());
            assert forall|k: int| 0 <= k < features@.len() implies texts(features@)[k] == requested(
                query@,
            )[k] by {
                assert(texts(pieces@)[k] == pieces@[k]@);
            }
            assert(texts(features@) =~= requested(query@));
        }
        features
    }

    /// Whether the field with the given key is hidden from a request that asks for the
    /// given features.
    pub fn hides(key: &str, features: &Vec<String>) -> (hidden: bool)
        ensures
            hidden == is_hidden(key@, texts(features@)),
    {
        match feature(key) {
            Some(name) => !is_among(to_lowercase(name.as_str()).as_str(), features),
            None => false,
        }
    }
}

} // verus!
