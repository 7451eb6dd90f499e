//! Maps kernel routine addresses to the names of the loaded drivers.
use std::collections::BTreeMap;
use vstd::prelude::*;

use crate::text::{digits, hex_prefixed};

verus! {

broadcast use {vstd::std_specs::btree::group_btree_axioms, vstd::laws_cmp::group_laws_cmp};

/// A loaded driver.
#[derive(Debug, Clone)]
pub struct DriverModule {
    pub name: String,
    pub base_address: usize,
}

/// Why the recorded drivers could not be refreshed.
#[derive(Debug, Clone, Copy, PartialEq, Eq, Structural)]
pub enum RefreshError {
    /// The loaded drivers could not be enumerated.
    EnumerationFailed,
}

/// The loaded drivers by base address.
pub struct DriverResolver {
    modules: BTreeMap<usize, String>,
}

/// The largest span attributed to one driver: 50 MiB.
pub open spec fn max_driver_span() -> nat {
    52428800
}

/// The greatest base address of `m` that is at most `address`.
pub open spec fn floor_base(m: Map<usize, Seq<char>>, address: usize) -> Option<usize> {
    if exists|b: usize| #[trigger] m.contains_key(b) && b <= address {
        Some(
            choose|b: usize|
                #[trigger] m.contains_key(b) && b <= address && forall|c: usize|
                    #[trigger] m.contains_key(c) && c <= address ==> c <= b,
        )
    } else {
        None
    }
}

/// The name reported for `address`: the driver whose base is the closest
/// one at or below it, when the address lies less than 50 MiB past that
/// base; otherwise the address in lowercase hexadecimal with a `0x` prefix.
pub open spec fn resolved_name(m: Map<usize, Seq<char>>, address: usize) -> Seq<char> {
    match floor_base(m, address) {
        Some(b) => if address - b < max_driver_span() {
            m[b]
        } else {
            seq!['0', 'x'] + digits(address as nat, 16, false)
        },
        None => seq!['0', 'x'] + digits(address as nat, 16, false),
    }
}

/// The drivers that a refresh records from the enumerated `(base, name)`
/// pairs: entries with a null base or an empty name are skipped, and a later
/// entry for a base replaces an earlier one.
pub open spec fn modules_from(entries: Seq<(usize, String)>) -> Map<usize, Seq<char>>
    decreases entries.len(),
{
    if entries.len() == 0 {
        Map::empty()
    } else {
        let m = modules_from(entries.drop_last());
        let e = entries.last();
        if e.0 != 0 && e.1@.len() > 0 {
            m.insert(e.0, e.1@)
        } else {
            m
        }
    }
}

impl DriverResolver {
    /// The driver name per base address.
    pub closed spec fn modules(&self) -> Map<usize, Seq<char>> {
        self.modules@.map_values(|s: String| s@)
    }

    /// A resolver that knows no driver.
    pub fn new() -> (r: Self)
        ensures
            r.modules() == Map::<usize, Seq<char>>::empty(),
    {
        let r = DriverResolver { modules: BTreeMap::new() };
        assert(r.modules() =~= Map::<usize, Seq<char>>::empty());
        r
    }

    /// Records `name` as the driver loaded at `base`, replacing any driver
    /// recorded there.
    fn insert(&mut self, base: usize, name: String)
        ensures
            final(self).modules() == old(self).modules().insert(base, name@),
    {
        let ghost before = self.modules();
        let ghost name_v = name@;
        self.modules.insert(base, name);
        assert(self.modules() =~= before.insert(base, name_v));
    }

    /// Replaces the recorded drivers with the enumerated `(base, name)` pairs,
    /// skipping null bases and empty names.
    pub fn refresh_from(&mut self, drivers: &[(usize, String)])
        ensures
            final(self).modules() == modules_from(drivers@),
    {
        self.modules.clear();
        assert(self.modules() =~= Map::<usize, Seq<char>>::empty());
        let mut i: usize = 0;
        while i < drivers.len()
            invariant
                i <= drivers@.len(),
                self.modules() == modules_from(drivers@.take(i as int)),
            decreases drivers.len() - i,
        {
            assert(drivers@.take(i + 1).drop_last() =~= drivers@.take(i as int));
            let base = drivers[i].0;
            let name: &String = &drivers[i].1;
            if base != 0 && !name.as_str().is_empty() {
                self.insert(base, name.clone());
            }
            i = i + 1;
        }
        assert(drivers@.take(drivers.len() as int) =~= drivers@);
    }

    /// Replaces the recorded drivers with the outcome of an enumeration of the
    /// loaded drivers: with the enumerated `(base, name)` pairs, as
    /// [`DriverResolver::refresh_from`] does, or, when the enumeration failed
    /// (`None`), keeps the recorded drivers and reports the failure.
    pub fn refresh(&mut self, enumerated: Option<Vec<(usize, String)>>) -> (r: Result<(), RefreshError>)
        ensures
            match enumerated {
                Some(drivers) => r is Ok && final(self).modules() == modules_from(drivers@),
                None => r == Err::<(), RefreshError>(RefreshError::EnumerationFailed) && final(self).modules()
                    == old(self).modules(),
            },
    {
        match enumerated {
            Some(drivers) => {
                self.refresh_from(drivers.as_slice());
                Ok(())
            },
            None => Err(RefreshError::EnumerationFailed),
        }
    }

    /// The name of the driver that contains `address`, or the address in
    /// hexadecimal when no driver is known to contain it.
    pub fn resolve(&self, address: usize) -> (r: String)
        ensures
            r@ == resolved_name(self.modules(), address),
    {
        let ghost all = vstd::std_specs::iter::IteratorSpec::remaining(
            &vstd::std_specs::btree::spec_btree_map_iter(&self.modules),
        );
        let mut best: Option<(usize, &String)> = None;
        for (k, name) in it: self.modules.iter()
            invariant
                it.seq() == all,
                match best {
                    Some((b, n)) => self.modules@.contains_key(b) && self.modules@[b] == *n && b
                        <= address && forall|j: int|
                        0 <= j < it.index() && *#[trigger] all[j].0 <= address ==> *all[j].0 <= b,
                    None => forall|j: int| 0 <= j < it.index() ==> *#[trigger] all[j].0 > address,
                },
        {
            if *k <= address {
                match best {
                    Some((b, _)) => {
                        if *k > b {
                            best = Some((*k, name));
                        }
                    },
                    None => {
                        best = Some((*k, name));
                    },
                }
            }
        }
        let m = Ghost(self.modules());
        match best {
            Some((base, name)) => {
                proof {
                    assert forall|c: usize| #[trigger] m@.contains_key(c) && c <= address implies c
                        <= base by {
                        assert(all.contains((&c, &self.modules@[c])));
                        let j = choose|j: int| 0 <= j < all.len() && all[j] == (&c, &self.modules@[c]);
                        assert(*all[j].0 == c);
                    }
                    lemma_floor_is(m@, address, base);
                }
                if address - base < 52428800 {
                    name.clone()
                } else {
                    hex_prefixed(address as u64)
                }
            },
            None => {
                proof {
                    assert forall|c: usize| #[trigger] m@.contains_key(c) implies !(c <= address) by {
                        assert(all.contains((&c, &self.modules@[c])));
                        let j = choose|j: int| 0 <= j < all.len() && all[j] == (&c, &self.modules@[c]);
                        assert(*all[j].0 == c);
                    }
                }
                hex_prefixed(address as u64)
            },
        }
    }
}

/// `base` is the greatest key of `m` at or below `address`.
proof fn lemma_floor_is(m: Map<usize, Seq<char>>, address: usize, base: usize)
    requires
        m.contains_key(base),
        base <= address,
        forall|c: usize| #[trigger] m.contains_key(c) && c <= address ==> c <= base,
    ensures
        floor_base(m, address) == Some(base),
{
    let b = floor_base(m, address)->0;
    assert(m.contains_key(base) && base <= address);
    assert(b <= base);
    assert(base <= b);
}

} // verus!
