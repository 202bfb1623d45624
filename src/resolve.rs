//! Gathering the answer of a forward lookup that asked for the canonical name.

use vstd::prelude::*;

use crate::text::views;

verus! {

/// One record of a forward lookup, as the resolver gave it.
#[derive(Debug)]
pub struct ResolvedAddress {
    /// The address, in its textual form.
    pub address: String,
    /// The canonical name, where the resolver attached one to this record.
    pub canonical_name: Option<String>,
}

/// Why a forward lookup gave no records.
#[derive(Clone, Copy, Debug, PartialEq, Eq, Structural)]
pub enum ResolveFailure {
    /// The resolver has no record for the name.
    NotFound,
    /// The resolver failed for another reason.
    Failed,
}

/// The canonical name and every address of a forward lookup.
#[derive(Debug)]
pub struct ResolutionResult {
    /// The first non-empty canonical name of the records, or the empty string.
    pub canonical_name: String,
    /// The addresses, in the order the resolver gave them.
    pub addresses: Vec<String>,
}

/// The first non-empty canonical name among the records, or the empty text.
pub open spec fn first_canonical(es: Seq<ResolvedAddress>) -> Seq<char>
    decreases es.len(),
{
    if es.len() == 0 {
        Seq::empty()
    } else {
        match es[0].canonical_name {
            Some(c) if c@.len() > 0 => c@,
            _ => first_canonical(es.drop_first()),
        }
    }
}

/// The addresses of the records, in order.
pub open spec fn addresses_of(es: Seq<ResolvedAddress>) -> Seq<Seq<char>> {
    es.map_values(|e: ResolvedAddress| e.address@)
}

/// The result of a lookup, from its records.
pub fn collect_resolution(entries: &Vec<ResolvedAddress>) -> (r: ResolutionResult)
    ensures
        r.canonical_name@ == first_canonical(entries@),
        views(r.addresses@) == addresses_of(entries@),
{
    let mut addresses: Vec<String> = Vec::new();
    let mut canonical: Option<String> = None;
    let mut i: usize = 0;
    assert(entries@.skip(0) =~= entries@);
    while i < entries.len()
        invariant
            i <= entries.len(),
            addresses@.len() == i,
            forall|k: int| 0 <= k < i ==> #[trigger] addresses@[k]@ == entries@[k].address@,
            canonical matches Some(c) ==> c@ == first_canonical(entries@),
            canonical is None ==> first_canonical(entries@) == first_canonical(entries@.skip(i as int)),
        decreases entries.len() - i,
    {
        let e = &entries[i];
        assert(entries@.skip(i as int).drop_first() =~= entries@.skip(i + 1));
        if canonical.is_none() {
            match &e.canonical_name {
                Some(c) => {
                    if !c.as_str().is_empty() {
                        canonical = Some(c.clone());
                    }
                },
                None => {},
            }
        }
        addresses.push(e.address.clone());
        i = i + 1;
    }
    assert(views(addresses@) =~= addresses_of(entries@));
    let canonical_name = match canonical {
        Some(c) => c,
        None => {
            assert(entries@.skip(entries.len() as int).len() == 0);
            String::new()
        },
    };
    ResolutionResult { canonical_name, addresses }
}

} // verus!
