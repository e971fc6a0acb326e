//! Selection of the latest semantic version among the tags of a mirror.

use crate::error::PackageError;
use semver::Version;
use vstd::prelude::*;

verus! {

#[verifier::external_type_specification]
#[verifier::external_body]
pub struct ExVersion(semver::Version);

#[verifier::external_type_specification]
#[verifier::external_body]
pub struct ExVersionError(semver::Error);

/// The version that `semver::Version::parse` reads from a tag, where it reads one.
pub uninterp spec fn parsed_version(tag: Seq<char>) -> Option<Version>;

/// Whether `a` comes strictly before `b` in the order of `semver::Version`.
pub uninterp spec fn precedes(a: Version, b: Version) -> bool;

/// The text that `semver::Version` displays as.
pub uninterp spec fn version_text(v: Version) -> Seq<char>;

/// `a` is `b` or comes after it.
pub open spec fn at_least(a: Version, b: Version) -> bool {
    a == b || precedes(b, a)
}

/// Calls `semver::Version::parse`. Trusted: the outcome depends on the text
/// of the tag alone, and is the version named `parsed_version`.
#[verifier::external_body]
fn parse_version(tag: &str) -> (r: Result<Version, semver::Error>)
    ensures
        r.is_ok() == parsed_version(tag@).is_some(),
        r matches Ok(v) ==> parsed_version(tag@) == Some(v),
{
    Version::parse(tag)
}

/// Compares two versions with `>` of `semver::Version`. Trusted: the
/// comparison is the strict total order that `Ord` documents; it is
/// transitive, and two versions that neither precede the other are the same
/// version.
#[verifier::external_body]
fn version_gt(a: &Version, b: &Version) -> (r: bool)
    ensures
        r == precedes(*b, *a),
        r ==> forall|c: Version| #[trigger] precedes(c, *b) ==> precedes(c, *a),
        !r ==> *a == *b || precedes(*a, *b),
{
    a > b
}

/// Formats a version through the `Display` impl of `semver::Version`.
/// Trusted: the text depends on the version alone.
#[verifier::external_body]
fn version_string(v: &Version) -> (r: String)
    ensures
        r@ == version_text(*v),
{
    v.to_string()
}

/// The texts of a list of tags.
pub open spec fn tag_texts(tags: Seq<String>) -> Seq<Seq<char>> {
    Seq::new(tags.len(), |i: int| tags[i]@)
}

/// The greater of the best version so far and the next tag's version; the
/// earlier one stays where the two are the same.
pub open spec fn later_of(best: Option<Version>, next: Option<Version>) -> Option<Version> {
    match (best, next) {
        (None, _) => next,
        (Some(b), None) => Some(b),
        (Some(b), Some(v)) => if precedes(b, v) {
            Some(v)
        } else {
            Some(b)
        },
    }
}

/// The latest version among the tags that parse, taken from left to right.
pub open spec fn latest_version(tags: Seq<Seq<char>>) -> Option<Version>
    decreases tags.len(),
{
    if tags.len() == 0 {
        None
    } else {
        later_of(latest_version(tags.drop_last()), parsed_version(tags.last()))
    }
}

/// `v` is the version of one of the tags and no tag has a later one.
pub open spec fn is_maximum(tags: Seq<Seq<char>>, v: Version) -> bool {
    &&& exists|k: int| 0 <= k < tags.len() && #[trigger] parsed_version(tags[k]) == Some(v)
    &&& forall|j: int|
        0 <= j < tags.len() ==> (#[trigger] parsed_version(tags[j]) matches Some(w) ==> at_least(
            v,
            w,
        ))
}

/// No tag is a semantic version.
pub open spec fn none_parses(tags: Seq<Seq<char>>) -> bool {
    forall|j: int| 0 <= j < tags.len() ==> (#[trigger] parsed_version(tags[j])).is_none()
}

/// Returns the text of the latest semantic version among `tags`. Tags that
/// are no semantic version are passed over; with none left the result is
/// `NoTagsFound`.
pub fn select_latest(tags: &Vec<String>) -> (r: Result<String, PackageError>)
    ensures
        match latest_version(tag_texts(tags@)) {
            Some(v) => r matches Ok(s) && s@ == version_text(v) && is_maximum(tag_texts(tags@), v),
            None => r == Err::<String, PackageError>(PackageError::NoTagsFound) && none_parses(
                tag_texts(tags@),
            ),
        },
        r.is_err() <==> none_parses(tag_texts(tags@)),
{
    let ghost texts = tag_texts(tags@);
    let mut best: Option<Version> = None;
    let mut i: usize = 0;
    while i < tags.len()
        invariant
            i <= tags.len(),
            texts == tag_texts(tags@),
            best == latest_version(texts.take(i as int)),
            best matches Some(v) ==> is_maximum(texts.take(i as int), v),
            best.is_none() ==> none_parses(texts.take(i as int)),
        decreases tags.len() - i,
    {
        let ghost before = texts.take(i as int);
        let ghost after = texts.take(i + 1);
        proof {
            assert(after.drop_last() =~= before);
            assert(after.last() == tags@[i as int]@);
            assert(forall|j: int| 0 <= j < before.len() ==> before[j] == after[j]);
        }
        match parse_version(tags[i].as_str()) {
            Ok(v) => {
                let replace = match &best {
                    None => true,
                    Some(b) => version_gt(&v, b),
                };
                if replace {
                    proof {
                        assert(parsed_version(after[i as int]) == Some(v));
                    }
                    best = Some(v);
                } else {
                    proof {
                        let b = best->0;
                        let k = choose|k: int|
                            0 <= k < before.len() && #[trigger] parsed_version(before[k]) == Some(
                                b,
                            );
                        assert(parsed_version(after[k]) == Some(b));
                    }
                }
            },
            Err(_) => {
                proof {
                    if best.is_some() {
                        let b = best->0;
                        let k = choose|k: int|
                            0 <= k < before.len() && #[trigger] parsed_version(before[k]) == Some(
                                b,
                            );
                        assert(parsed_version(after[k]) == Some(b));
                    }
                }
            },
        }
        i += 1;
    }
    proof {
        assert(texts.take(tags.len() as int) =~= texts);
    }
    match best {
        Some(v) => Ok(version_string(&v)),
        None => Err(PackageError::NoTagsFound),
    }
}

} // verus!
