//! What the provider hands back, and how its answers are read.

use vstd::prelude::*;

verus! {

/// The provider's code for "a namespace with this title already exists".
pub const ALREADY_EXISTS_CODE: u16 = 10014;

/// The provider's code for "the account lacks the entitlement to create namespaces".
pub const NOT_ENTITLED_CODE: u16 = 10026;

/// A remote namespace: its opaque identifier and its title.
#[derive(Debug)]
pub struct NamespaceHandle {
    pub id: String,
    pub title: String,
}

/// One entry of a provider's error set.
#[derive(Debug)]
pub struct ProviderError {
    pub code: u16,
    pub message: String,
}

/// Why a remote call failed.
#[derive(Debug)]
pub enum RemoteError {
    /// The provider answered with a set of errors.
    Provider(Vec<ProviderError>),
    /// The request or its response could not be carried (network, decoding).
    Transport(String),
}

/// What a failed create means for the caller.
#[derive(Clone, Copy, Debug, PartialEq, Eq, Structural)]
pub enum Category {
    FeatureNotEntitled,
    AlreadyExists,
    Unclassified,
}

/// Some entry of `errors` carries `code`.
pub open spec fn has_code(errors: Seq<ProviderError>, code: u16) -> bool {
    exists|i: int| 0 <= i < errors.len() && errors[i].code == code
}

/// Every entry of `errors`, and at least one, carries `code`.
pub open spec fn only_code(errors: Seq<ProviderError>, code: u16) -> bool {
    errors.len() > 0 && forall|i: int| 0 <= i < errors.len() ==> errors[i].code == code
}

/// The category of an error set: a conflict anywhere wins; a set made only of
/// entitlement errors means the feature is missing; anything else is unclassified.
pub open spec fn category(errors: Seq<ProviderError>) -> Category {
    if has_code(errors, ALREADY_EXISTS_CODE) {
        Category::AlreadyExists
    } else if only_code(errors, NOT_ENTITLED_CODE) {
        Category::FeatureNotEntitled
    } else {
        Category::Unclassified
    }
}

/// Classifies the error set of a failed create.
pub fn classify(errors: &Vec<ProviderError>) -> (r: Category)
    ensures
        r == category(errors@),
{
    let mut conflict = false;
    let mut all_entitlement = errors.len() > 0;
    let mut i: usize = 0;
    while i < errors.len()
        invariant
            0 <= i <= errors@.len(),
            conflict == has_code(errors@.subrange(0, i as int), ALREADY_EXISTS_CODE),
            all_entitlement == (errors@.len() > 0 && forall|j: int|
                0 <= j < i ==> errors@[j].code == NOT_ENTITLED_CODE),
        decreases errors.len() - i,
    {
        let code = errors[i].code;
        proof {
            let before = errors@.subrange(0, i as int);
            let after = errors@.subrange(0, i + 1);
            assert(after[i as int] == errors@[i as int]);
            if has_code(after, ALREADY_EXISTS_CODE) && code != ALREADY_EXISTS_CODE {
                let k = choose|k: int| 0 <= k < after.len() && after[k].code == ALREADY_EXISTS_CODE;
                assert(before[k] == after[k]);
            }
            if has_code(before, ALREADY_EXISTS_CODE) {
                let k = choose|k: int| 0 <= k < before.len() && before[k].code == ALREADY_EXISTS_CODE;
                assert(before[k] == after[k]);
            }
        }
        if code == ALREADY_EXISTS_CODE {
            conflict = true;
        }
        if code != NOT_ENTITLED_CODE {
            all_entitlement = false;
        }
        i += 1;
    }
    assert(errors@.subrange(0, errors@.len() as int) =~= errors@);
    if conflict {
        Category::AlreadyExists
    } else if all_entitlement {
        Category::FeatureNotEntitled
    } else {
        Category::Unclassified
    }
}

/// The first position at or after `from` whose entry has title `title`.
pub open spec fn first_match_from(list: Seq<NamespaceHandle>, title: Seq<char>, from: int) -> Option<int>
    decreases list.len() - from,
{
    if from < 0 || from >= list.len() {
        None
    } else if list[from].title@ == title {
        Some(from)
    } else {
        first_match_from(list, title, from + 1)
    }
}

/// The first position in `list` whose entry has title `title`.
pub open spec fn first_match(list: Seq<NamespaceHandle>, title: Seq<char>) -> Option<int> {
    first_match_from(list, title, 0)
}

/// A position found from `from` on lies in `from..list.len()` and holds an entry titled `title`.
pub proof fn lemma_first_match_from_found(list: Seq<NamespaceHandle>, title: Seq<char>, from: int)
    ensures
        first_match_from(list, title, from) matches Some(k) ==> from <= k < list.len()
            && list[k].title@ == title,
    decreases list.len() - from,
{
    if 0 <= from < list.len() && list[from].title@ != title {
        lemma_first_match_from_found(list, title, from + 1);
    }
}

/// Where the entry at `i` has title `title`, some position from `from` on is found.
pub proof fn lemma_first_match_from_exists(list: Seq<NamespaceHandle>, title: Seq<char>, from: int, i: int)
    requires
        0 <= from <= i < list.len(),
        list[i].title@ == title,
    ensures
        first_match_from(list, title, from) is Some,
    decreases i - from,
{
    if from < i && list[from].title@ != title {
        lemma_first_match_from_exists(list, title, from + 1, i);
    }
}

/// Finds the position of the first namespace in `list` titled `title`.
pub fn find_title(list: &Vec<NamespaceHandle>, title: &String) -> (r: Option<usize>)
    ensures
        r matches Some(i) ==> i < list@.len() && first_match(list@, title@) == Some(i as int),
        r is None ==> first_match(list@, title@) is None,
{
    let mut i: usize = 0;
    while i < list.len()
        invariant
            0 <= i <= list@.len(),
            first_match_from(list@, title@, i as int) == first_match(list@, title@),
        decreases list.len() - i,
    {
        if list[i].title == *title {
            return Some(i);
        }
        i += 1;
    }
    None
}

} // verus!
