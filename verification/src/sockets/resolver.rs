//! A resolver that answers from a table held in this process.

use crate::poll::Poll;
use crate::sockets::{Error, IpAddr, Resolver};
use vstd::prelude::*;
use vstd::string::*;

verus! {

/// What the first record for `host` in `records` holds, if there is one.
pub open spec fn answer(records: Seq<(Seq<char>, Seq<IpAddr>)>, host: Seq<char>) -> Option<
    Seq<IpAddr>,
>
    decreases records.len(),
{
    if records.len() == 0 {
        None
    } else if records[0].0 == host {
        Some(records[0].1)
    } else {
        answer(records.drop_first(), host)
    }
}

struct Record {
    host: String,
    addrs: Vec<IpAddr>,
}

/// Host names with the addresses on record for each.
pub struct HostTable {
    records: Vec<Record>,
}

impl View for HostTable {
    /// The records, the one entered last first.
    type V = Seq<(Seq<char>, Seq<IpAddr>)>;

    closed spec fn view(&self) -> Seq<(Seq<char>, Seq<IpAddr>)> {
        Seq::new(self.records@.len(), |i: int| (self.records@[i].host@, self.records@[i].addrs@))
    }
}

impl HostTable {
    /// A table in which no host is known.
    pub fn new() -> (table: HostTable)
        ensures
            table@ == Seq::<(Seq<char>, Seq<IpAddr>)>::empty(),
    {
        let table = HostTable { records: Vec::new() };
        table
    }

    /// Puts `addrs` on record for `host`, in place of what was on record for
    /// it. A host may be entered with no address: it is then known and has
    /// none.
    pub fn enter(&mut self, host: String, addrs: Vec<IpAddr>)
        ensures
            final(self)@ == seq![(host@, addrs@)] + old(self)@,
            answer(final(self)@, host@) == Some(addrs@),
            forall|other: Seq<char>|
                other != host@ ==> answer(final(self)@, other) == answer(old(self)@, other),
    {
        self.records.insert(0, Record { host, addrs });
        assert(self@.drop_first() =~= old(self)@);
    }
}

impl Default for HostTable {
    fn default() -> (table: HostTable)
        ensures
            table@ == Seq::<(Seq<char>, Seq<IpAddr>)>::empty(),
    {
        HostTable::new()
    }
}

impl Resolver for HostTable {
    open spec fn records(&self, host: Seq<char>) -> Option<Seq<IpAddr>> {
        answer(self@, host)
    }

    /// Completes at once. A host that is not known is `Other`, with a text
    /// that names it.
    fn resolve(&self, host: &str) -> (r: Poll<Result<Vec<IpAddr>, Error>>)
        ensures
            match r {
                Poll::Ready(Ok(addrs)) => answer(self@, host@) == Some(addrs@),
                Poll::Ready(Err(Error::Other(text))) => answer(self@, host@) is None && text@
                    == "unknown host: "@ + host@,
                _ => false,
            },
    {
        let wanted = host.to_owned();
        let mut i: usize = 0;
        assert(self@.skip(0) =~= self@);
        while i < self.records.len()
            invariant
                i <= self.records@.len(),
                wanted@ == host@,
                answer(self@, host@) == answer(self@.skip(i as int), host@),
            decreases self.records@.len() - i,
        {
            if self.records[i].host == wanted {
                let found = &self.records[i].addrs;
                let mut addrs: Vec<IpAddr> = Vec::new();
                let mut j: usize = 0;
                while j < found.len()
                    invariant
                        j <= found@.len(),
                        addrs@ == found@.take(j as int),
                    decreases found@.len() - j,
                {
                    addrs.push(found[j]);
                    j += 1;
                }
                return Poll::Ready(Ok(addrs));
            }
            assert(self@.skip(i as int).drop_first() =~= self@.skip(i + 1));
            i += 1;
        }
        Poll::Ready(Err(Error::Other("unknown host: ".to_owned().concat(host))))
    }
}

} // verus!
