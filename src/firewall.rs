//! The allow-list capability, and an in-memory allow-list that implements it.
use vstd::prelude::*;

verus! {

/// Control over an allow-list of network addresses, written in text form.
pub trait Firewall: Sync + Send {
    /// What a failed operation reports.
    type Error;

    /// Removes every address from the allow-list.
    fn clear_whitelist(&mut self) -> Result<(), Self::Error>;

    /// Admits `ip`; admitting an address that is already there is no error.
    fn add_ip(&mut self, ip: &str) -> Result<(), Self::Error>;

    /// Whether `ip` is on the allow-list now.
    fn check_ip(&self, ip: &str) -> Result<bool, Self::Error>;
}

/// An allow-list held in memory, each address at most once.
pub struct MemoryFirewall {
    addresses: Vec<String>,
}

impl View for MemoryFirewall {
    type V = Set<Seq<char>>;

    closed spec fn view(&self) -> Set<Seq<char>> {
        Set::new(|a: Seq<char>| exists|i: int| 0 <= i < self.addresses@.len() && #[trigger] self.addresses@[i]@ == a)
    }
}

impl MemoryFirewall {
    /// An empty allow-list.
    pub fn new() -> (r: Self)
        ensures
            r@ == Set::<Seq<char>>::empty(),
    {
        let r = MemoryFirewall { addresses: Vec::new() };
        assert(r@ =~= Set::<Seq<char>>::empty());
        r
    }

    /// Whether `ip` is held.
    pub fn contains(&self, ip: &str) -> (r: bool)
        ensures
            r == self@.contains(ip@),
    {
        let key = String::from_str(ip);
        let mut i: usize = 0;
        while i < self.addresses.len()
            invariant
                i <= self.addresses@.len(),
                key@ == ip@,
                forall|j: int| 0 <= j < i ==> self.addresses@[j]@ != ip@,
            decreases self.addresses@.len() - i,
        {
            if self.addresses[i] == key {
                return true;
            }
            i = i + 1;
        }
        false
    }
}

impl Firewall for MemoryFirewall {
    type Error = ();

    fn clear_whitelist(&mut self) -> (r: Result<(), ()>)
        ensures
            r is Ok,
            final(self)@ == Set::<Seq<char>>::empty(),
    {
        self.addresses = Vec::new();
        assert(self@ =~= Set::<Seq<char>>::empty());
        Ok(())
    }

    fn add_ip(&mut self, ip: &str) -> (r: Result<(), ()>)
        ensures
            r is Ok,
            final(self)@ == old(self)@.insert(ip@),
    {
        if !self.contains(ip) {
            let ghost before = self.addresses@;
            self.addresses.push(String::from_str(ip));
            assert forall|a: Seq<char>| old(self)@.insert(ip@).contains(a) implies self@.contains(a) by {
                if a != ip@ {
                    let j = choose|j: int| 0 <= j < before.len() && #[trigger] before[j]@ == a;
                    assert(self.addresses@[j]@ == a);
                } else {
                    assert(self.addresses@[before.len() as int]@ == a);
                }
            }
            assert forall|a: Seq<char>| self@.contains(a) implies old(self)@.insert(ip@).contains(a) by {
                if a != ip@ {
                    let j = choose|j: int| 0 <= j < self.addresses@.len() && #[trigger] self.addresses@[j]@ == a;
                    assert(before[j]@ == a);
                }
            }
            assert(self@ =~= old(self)@.insert(ip@));
        } else {
            assert(self@ =~= old(self)@.insert(ip@));
        }
        Ok(())
    }

    fn check_ip(&self, ip: &str) -> (r: Result<bool, ()>)
        ensures
            r == Ok::<bool, ()>(self@.contains(ip@)),
    {
        Ok(self.contains(ip))
    }
}

/// After `add_ip(a)`, `check_ip(a)` is true; after `clear_whitelist()`, it is
/// false for every address.
pub proof fn lemma_add_then_check(fw: &MemoryFirewall, ip: Seq<char>)
    ensures
        fw@.insert(ip).contains(ip),
        !Set::<Seq<char>>::empty().contains(ip),
{
}

/// Admitting an address twice is the same as admitting it once, and leaves it
/// admitted.
pub proof fn lemma_add_twice(fw: &MemoryFirewall, ip: Seq<char>)
    ensures
        fw@.insert(ip).insert(ip) == fw@.insert(ip),
        fw@.insert(ip).insert(ip).contains(ip),
{
    assert(fw@.insert(ip).insert(ip) =~= fw@.insert(ip));
}

} // verus!
