//! Parts of federated objects: language tags built from stored language
//! rows, and an actor's endpoints.

use vstd::prelude::*;

verus! {

/// The identifier of the "undetermined" language, which gets no tag.
pub const UNDETERMINED_ID: i32 = 0;

/// A language as a federated object names it: its code and its name.
#[derive(Clone, Debug, PartialEq)]
pub struct LanguageTag {
    pub identifier: String,
    pub name: String,
}

/// The endpoints that an actor publishes.
#[derive(Clone, Debug, PartialEq)]
pub struct Endpoints {
    /// The URL of the inbox shared by all actors of the instance.
    pub shared_inbox: String,
}

/// The present identifiers of `ids`, in order.
pub open spec fn present_ids(ids: Seq<Option<i32>>) -> Seq<i32>
    decreases ids.len(),
{
    if ids.len() == 0 {
        Seq::empty()
    } else {
        let rest = present_ids(ids.drop_last());
        match ids.last() {
            Some(id) => rest.push(id),
            None => rest,
        }
    }
}

impl LanguageTag {
    /// The tag of one stored language (its id, code and name); none for the
    /// undetermined language.
    pub fn new_single(lang_id: i32, code: String, name: String) -> (r: Option<LanguageTag>)
        ensures
            lang_id == UNDETERMINED_ID ==> r is None,
            lang_id != UNDETERMINED_ID ==> (r matches Some(t) && t.identifier@ == code@ && t.name@ == name@),
    {
        if lang_id == UNDETERMINED_ID {
            None
        } else {
            Some(LanguageTag { identifier: code, name })
        }
    }

    /// The tags of stored languages, given as (code, name) pairs, in order.
    pub fn new_multiple(langs: Vec<(String, String)>) -> (r: Vec<LanguageTag>)
        ensures
            r@.len() == langs@.len(),
            forall|i: int| 0 <= i < r@.len() ==> #[trigger] r@[i].identifier@ == langs@[i].0@ && r@[i].name@ == langs@[i].1@,
    {
        let mut r: Vec<LanguageTag> = Vec::new();
        let mut i: usize = 0;
        while i < langs.len()
            invariant
                i <= langs@.len(),
                r@.len() == i,
                forall|j: int| 0 <= j < i ==> #[trigger] r@[j].identifier@ == langs@[j].0@ && r@[j].name@ == langs@[j].1@,
            decreases langs@.len() - i,
        {
            let (code, name) = (langs[i].0.clone(), langs[i].1.clone());
            r.push(LanguageTag { identifier: code, name });
            i = i + 1;
        }
        r
    }

    /// The language ids that the lookups of several tags found, in order;
    /// lookups that found nothing are left out.
    pub fn to_language_id_multiple(found: Vec<Option<i32>>) -> (r: Vec<i32>)
        ensures
            r@ == present_ids(found@),
    {
        let mut r: Vec<i32> = Vec::new();
        let mut i: usize = 0;
        while i < found.len()
            invariant
                i <= found@.len(),
                r@ == present_ids(found@.subrange(0, i as int)),
            decreases found@.len() - i,
        {
            proof {
                let s = found@.subrange(0, i as int + 1);
                assert(s.drop_last() =~= found@.subrange(0, i as int));
                assert(s.last() == found@[i as int]);
            }
            match found[i] {
                Some(id) => r.push(id),
                None => {},
            }
            i = i + 1;
        }
        assert(found@.subrange(0, found@.len() as int) =~= found@);
        r
    }
}

} // verus!
