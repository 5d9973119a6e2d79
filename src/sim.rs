//! An in-memory Global Data Space that answers the calls of port
//! transactions: buffer pages, named ports, and an optional injected failure.

use vstd::prelude::*;

use crate::error::PlcnextError;
use crate::gds::{
    protocol_calls, protocol_calls_distinct, protocol_result, error_view, GdsCall, GdsOperation, GdsTransaction,
    PortLocation, Replies, Reply,
};

verus! {

/// The text of an injected failure.
pub const INJECTED_FAILURE: &'static str = "Injected failure.";

/// The text of a failed lookup of an unknown port.
pub const UNKNOWN_PORT: &'static str = "No buffer holds the named port.";

/// A named port of the simulated space.
pub struct SimulatedPort {
    pub io_system_name: String,
    pub port_name: String,
    /// Index of the page that holds the port.
    pub page: usize,
    pub location: PortLocation,
}

/// Whether `p` is the port `port` of the I/O system `io`.
pub open spec fn names(p: SimulatedPort, io: Seq<char>, port: Seq<char>) -> bool {
    p.io_system_name@ == io && p.port_name@ == port
}

/// The first port from index `i` on that is named `port` in `io`.
pub open spec fn index_from(ports: Seq<SimulatedPort>, io: Seq<char>, port: Seq<char>, i: int) -> Option<int>
    decreases ports.len() - i,
{
    if i < 0 || i >= ports.len() {
        None
    } else if names(ports[i], io, port) {
        Some(i)
    } else {
        index_from(ports, io, port, i + 1)
    }
}

proof fn index_from_names(ports: Seq<SimulatedPort>, io: Seq<char>, port: Seq<char>, i: int)
    ensures
        index_from(ports, io, port, i) matches Some(k) ==> i <= k < ports.len() && names(ports[k], io, port),
    decreases ports.len() - i,
{
    if 0 <= i < ports.len() && !names(ports[i], io, port) {
        index_from_names(ports, io, port, i + 1);
    }
}

/// The first port named `port` in `io`.
pub open spec fn port_index(ports: Seq<SimulatedPort>, io: Seq<char>, port: Seq<char>) -> Option<int> {
    index_from(ports, io, port, 0)
}

/// `page` with `data` written from `offset` on.
pub open spec fn overwrite(page: Seq<u8>, offset: int, data: Seq<u8>) -> Seq<u8> {
    Seq::new(page.len(), |j: int| if offset <= j < offset + data.len() { data[j - offset] } else { page[j] })
}

/// The `len` bytes of `page` from `offset` on.
pub open spec fn bytes_at(page: Seq<u8>, offset: int, len: int) -> Seq<u8> {
    page.subrange(offset, offset + len)
}

/// Whether a transaction of `len` bytes with these answers copies its bytes.
pub open spec fn copies(len: nat, r: Replies) -> bool {
    protocol_calls(len, r).contains(GdsCall::Copy)
}

/// An in-memory Global Data Space.
pub struct SimulatedGds {
    pub pages: Vec<Vec<u8>>,
    pub ports: Vec<SimulatedPort>,
    /// The calls that fail; a copy never fails.
    pub failing: Vec<GdsCall>,
    /// Every call answered so far, in order.
    pub log: Vec<GdsCall>,
}

impl SimulatedGds {
    /// Every port lies within its page.
    pub open spec fn wf(&self) -> bool {
        forall|i: int|
            0 <= i < self.ports@.len() ==> {
                let p = #[trigger] self.ports@[i];
                &&& p.page < self.pages@.len()
                &&& p.location.offset + p.location.size <= self.pages@[p.page as int]@.len()
            }
    }

    /// The bytes of each page.
    pub open spec fn page_bytes(&self) -> Seq<Seq<u8>> {
        self.pages@.map_values(|p: Vec<u8>| p@)
    }

    /// What the space answers to the calls of a transaction on `port` of `io`.
    pub open spec fn replies(&self, io: Seq<char>, port: Seq<char>) -> Replies {
        let idx = port_index(self.ports@, io, port);
        let outcome = |c: GdsCall|
            if self.failing@.contains(c) {
                Err(INJECTED_FAILURE@)
            } else {
                Ok(())
            };
        Replies {
            buffer: if self.failing@.contains(GdsCall::LookupBuffer) {
                Err(INJECTED_FAILURE@)
            } else if idx is None {
                Err(UNKNOWN_PORT@)
            } else {
                Ok(())
            },
            location: if self.failing@.contains(GdsCall::LookupOffset) {
                Err(INJECTED_FAILURE@)
            } else {
                Ok(self.ports@[idx->Some_0].location)
            },
            begin: outcome(GdsCall::Begin),
            end: outcome(GdsCall::End),
            release: outcome(GdsCall::Release),
        }
    }

    /// An empty space without failures.
    pub fn new() -> (g: SimulatedGds)
        ensures
            g.wf(),
            g.pages@.len() == 0,
            g.ports@.len() == 0,
            g.failing@.len() == 0,
            g.log@.len() == 0,
    {
        SimulatedGds { pages: Vec::new(), ports: Vec::new(), failing: Vec::new(), log: Vec::new() }
    }

    /// Adds a zero-filled page of `size` bytes and returns its index.
    pub fn add_page(&mut self, size: usize) -> (i: usize)
        requires
            old(self).wf(),
        ensures
            final(self).wf(),
            i == old(self).pages@.len(),
            final(self).page_bytes() == old(self).page_bytes().push(Seq::new(size as nat, |j: int| 0u8)),
            final(self).ports == old(self).ports,
            final(self).failing == old(self).failing,
            final(self).log == old(self).log,
    {
        let mut page: Vec<u8> = Vec::new();
        let mut j: usize = 0;
        while j < size
            invariant
                j <= size,
                page@ == Seq::new(j as nat, |k: int| 0u8),
            decreases size - j,
        {
            page.push(0u8);
            j = j + 1;
            assert(page@ =~= Seq::new(j as nat, |k: int| 0u8));
        }
        let i = self.pages.len();
        self.pages.push(page);
        assert(self.page_bytes() =~= old(self).page_bytes().push(Seq::new(size as nat, |j: int| 0u8)));
        assert forall|k: int| 0 <= k < self.ports@.len() implies {
            let p = #[trigger] self.ports@[k];
            &&& p.page < self.pages@.len()
            &&& p.location.offset + p.location.size <= self.pages@[p.page as int]@.len()
        } by {
            assert(old(self).ports@[k] == self.ports@[k]);
        }
        i
    }

    /// Declares a port of `size` bytes at `offset` in page `page`. Refuses,
    /// and changes nothing, where the port would not lie within the page.
    pub fn add_port(&mut self, io_system_name: &str, port_name: &str, page: usize, offset: usize, size: usize) -> (added: bool)
        requires
            old(self).wf(),
        ensures
            final(self).wf(),
            added == (page < old(self).pages@.len() && offset + size <= old(self).pages@[page as int]@.len()),
            added ==> final(self).ports@.len() == old(self).ports@.len() + 1,
            added ==> final(self).ports@.drop_last() == old(self).ports@,
            added ==> names(final(self).ports@.last(), io_system_name@, port_name@),
            added ==> final(self).ports@.last().page == page,
            added ==> final(self).ports@.last().location == (PortLocation { offset, size }),
            !added ==> final(self).ports == old(self).ports,
            final(self).pages == old(self).pages,
            final(self).failing == old(self).failing,
            final(self).log == old(self).log,
    {
        if page >= self.pages.len() || size > self.pages[page].len() || offset > self.pages[page].len() - size {
            return false;
        }
        let port = SimulatedPort {
            io_system_name: String::from_str(io_system_name),
            port_name: String::from_str(port_name),
            page,
            location: PortLocation { offset, size },
        };
        self.ports.push(port);
        assert(self.ports@.drop_last() =~= old(self).ports@);
        assert forall|k: int| 0 <= k < self.ports@.len() implies {
            let p = #[trigger] self.ports@[k];
            &&& p.page < self.pages@.len()
            &&& p.location.offset + p.location.size <= self.pages@[p.page as int]@.len()
        } by {
            if k < old(self).ports@.len() {
                assert(old(self).ports@[k] == self.ports@[k]);
            }
        }
        true
    }

    /// Makes the calls in `calls` fail from now on, and no other.
    pub fn set_failing(&mut self, calls: Vec<GdsCall>)
        ensures
            final(self).failing == calls,
            final(self).pages == old(self).pages,
            final(self).ports == old(self).ports,
            final(self).log == old(self).log,
    {
        self.failing = calls;
    }

    fn find_port(&self, io: &String, port: &String) -> (r: Option<usize>)
        ensures
            match r {
                Some(i) => port_index(self.ports@, io@, port@) == Some(i as int),
                None => port_index(self.ports@, io@, port@) is None,
            },
    {
        let mut i: usize = 0;
        while i < self.ports.len()
            invariant
                i <= self.ports@.len(),
                port_index(self.ports@, io@, port@) == index_from(self.ports@, io@, port@, i as int),
            decreases self.ports@.len() - i,
        {
            let p = &self.ports[i];
            if p.io_system_name == *io && p.port_name == *port {
                return Some(i);
            }
            i = i + 1;
        }
        None
    }

    /// Whether `call` is the injected failure.
    fn fails(&self, call: GdsCall) -> (r: bool)
        ensures
            r == self.failing@.contains(call),
    {
        let mut i: usize = 0;
        while i < self.failing.len()
            invariant
                i <= self.failing@.len(),
                forall|k: int| 0 <= k < i ==> self.failing@[k] != call,
            decreases self.failing@.len() - i,
        {
            if self.failing[i] == call {
                return true;
            }
            i = i + 1;
        }
        false
    }

    /// The page and place of the port that a transaction on `port` of `io`
    /// finds, once its lookups have answered.
    pub open spec fn found(&self, io: Seq<char>, port: Seq<char>) -> SimulatedPort {
        self.ports@[port_index(self.ports@, io, port)->Some_0]
    }

    /// The bytes of each page after a transaction of direction `op` with
    /// `value` on `port` of `io`.
    pub open spec fn pages_after(&self, op: GdsOperation, io: Seq<char>, port: Seq<char>, value: Seq<u8>) -> Seq<Seq<u8>> {
        let p = self.found(io, port);
        if op == GdsOperation::Write && copies(value.len(), self.replies(io, port)) {
            self.page_bytes().update(
                p.page as int,
                overwrite(self.page_bytes()[p.page as int], p.location.offset as int, value),
            )
        } else {
            self.page_bytes()
        }
    }

    /// The caller's buffer after a transaction of direction `op` on `port` of `io`.
    pub open spec fn value_after(&self, op: GdsOperation, io: Seq<char>, port: Seq<char>, value: Seq<u8>) -> Seq<u8> {
        let p = self.found(io, port);
        if op == GdsOperation::Read && copies(value.len(), self.replies(io, port)) {
            bytes_at(self.page_bytes()[p.page as int], p.location.offset as int, value.len() as int)
        } else {
            value
        }
    }

    /// Runs one port transaction against this space.
    pub fn transfer(&mut self, op: GdsOperation, io_system_name: &str, port_name: &str, value: &mut Vec<u8>) -> (r: Result<(), PlcnextError>)
        requires
            old(self).wf(),
        ensures
            final(self).wf(),
            final(self).ports == old(self).ports,
            final(self).failing == old(self).failing,
            final(self).log@ == old(self).log@ + protocol_calls(
                old(value)@.len(),
                old(self).replies(io_system_name@, port_name@),
            ),
            error_view(r.err()) == protocol_result(
                old(value)@.len(),
                old(self).replies(io_system_name@, port_name@),
            ),
            final(self).page_bytes() == old(self).pages_after(op, io_system_name@, port_name@, old(value)@),
            final(value)@ == old(self).value_after(op, io_system_name@, port_name@, old(value)@),
    {
        let io = String::from_str(io_system_name);
        let port = String::from_str(port_name);
        let found = self.find_port(&io, &port);
        let ghost sr = self.replies(io_system_name@, port_name@);
        let ghost g0 = *self;
        let ghost v0 = value@;
        let len = value.len();
        let mut tx = GdsTransaction::start(op, len, Ghost(sr));
        while tx.next.is_some()
            invariant
                tx.wf(),
                tx.replies@ == sr,
                tx.len == len,
                tx.op == op,
                len == v0.len(),
                sr == g0.replies(io_system_name@, port_name@),
                self.wf(),
                g0.wf(),
                self.ports == g0.ports,
                self.failing == g0.failing,
                match found {
                    Some(i) => port_index(g0.ports@, io_system_name@, port_name@) == Some(i as int),
                    None => port_index(g0.ports@, io_system_name@, port_name@) is None,
                },
                self.log@ == g0.log@ + tx.calls@,
                self.page_bytes() == (if tx.calls@.contains(GdsCall::Copy) {
                    g0.pages_after(op, io_system_name@, port_name@, v0)
                } else {
                    g0.page_bytes()
                }),
                value@ == (if tx.calls@.contains(GdsCall::Copy) {
                    g0.value_after(op, io_system_name@, port_name@, v0)
                } else {
                    v0
                }),
            decreases 6 - tx.calls@.len(),
        {
            proof {
                protocol_calls_distinct(len as nat, sr);
            }
            let c = tx.next.unwrap();
            let ghost calls0 = tx.calls@;
            proof {
                index_from_names(g0.ports@, io_system_name@, port_name@, 0);
                let all = protocol_calls(len as nat, sr);
                assert(c == all[calls0.len() as int]);
                assert(!calls0.contains(c)) by {
                    if calls0.contains(c) {
                        let k = choose|k: int| 0 <= k < calls0.len() && calls0[k] == c;
                        assert(all[k] == calls0[k]);
                    }
                }
                assert(forall|x: GdsCall| x != c ==> (calls0.push(c).contains(x) == calls0.contains(x))) by {
                    assert forall|x: GdsCall| x != c implies (calls0.push(c).contains(x) == calls0.contains(x)) by {
                        if calls0.push(c).contains(x) {
                            let k = choose|k: int| 0 <= k < calls0.push(c).len() && calls0.push(c)[k] == x;
                            assert(calls0[k] == x);
                        }
                        if calls0.contains(x) {
                            let k = choose|k: int| 0 <= k < calls0.len() && calls0[k] == x;
                            assert(calls0.push(c)[k] == x);
                        }
                    }
                }
                assert(calls0.push(c)[calls0.len() as int] == c);
                if c == GdsCall::Copy {
                    assert(all.contains(GdsCall::Copy));
                    assert(copies(len as nat, sr));
                }
            }
            self.log.push(c);
            let reply = if c == GdsCall::Copy {
                let w = tx.window();
                let page = self.ports[found.unwrap()].page;
                self.copy_page(op, page, w, value);
                Reply::Done
            } else if self.fails(c) {
                Reply::Failed(String::from_str(INJECTED_FAILURE))
            } else {
                match c {
                    GdsCall::LookupBuffer => match found {
                        Some(_) => Reply::Done,
                        None => Reply::Failed(String::from_str(UNKNOWN_PORT)),
                    },
                    GdsCall::LookupOffset => Reply::Located(self.ports[found.unwrap()].location),
                    _ => Reply::Done,
                }
            };
            tx.advance(reply);
            assert(self.log@ =~= g0.log@ + tx.calls@);
        }
        proof {
            let all = protocol_calls(len as nat, sr);
            assert(tx.calls@ =~= all.take(all.len() as int));
        }
        tx.finish()
    }

    /// Reads the bytes of `port_name` of `io_system_name` into `value`, as many
    /// as `value` holds.
    pub fn read_input_data(&mut self, io_system_name: &str, port_name: &str, value: &mut Vec<u8>) -> (r: Result<(), PlcnextError>)
        requires
            old(self).wf(),
        ensures
            final(self).wf(),
            final(self).ports == old(self).ports,
            final(self).failing == old(self).failing,
            final(self).log@ == old(self).log@ + protocol_calls(
                old(value)@.len(),
                old(self).replies(io_system_name@, port_name@),
            ),
            error_view(r.err()) == protocol_result(
                old(value)@.len(),
                old(self).replies(io_system_name@, port_name@),
            ),
            final(self).page_bytes() == old(self).page_bytes(),
            final(value)@ == old(self).value_after(GdsOperation::Read, io_system_name@, port_name@, old(value)@),
    {
        self.transfer(GdsOperation::Read, io_system_name, port_name, value)
    }

    /// Writes `value` to `port_name` of `io_system_name`.
    pub fn write_output_data(&mut self, io_system_name: &str, port_name: &str, value: &Vec<u8>) -> (r: Result<(), PlcnextError>)
        requires
            old(self).wf(),
        ensures
            final(self).wf(),
            final(self).ports == old(self).ports,
            final(self).failing == old(self).failing,
            final(self).log@ == old(self).log@ + protocol_calls(
                value@.len(),
                old(self).replies(io_system_name@, port_name@),
            ),
            error_view(r.err()) == protocol_result(
                value@.len(),
                old(self).replies(io_system_name@, port_name@),
            ),
            final(self).page_bytes() == old(self).pages_after(GdsOperation::Write, io_system_name@, port_name@, value@),
    {
        let mut data = value.clone();
        proof {
            assert(data@ == value@);
        }
        self.transfer(GdsOperation::Write, io_system_name, port_name, &mut data)
    }

    fn copy_page(&mut self, op: GdsOperation, page: usize, w: PortLocation, value: &mut Vec<u8>)
        requires
            old(self).wf(),
            page < old(self).pages@.len(),
            w.offset + w.size <= old(self).pages@[page as int]@.len(),
            op == GdsOperation::Write ==> old(value)@.len() == w.size,
        ensures
            final(self).wf(),
            final(self).ports == old(self).ports,
            final(self).failing == old(self).failing,
            final(self).log == old(self).log,
            op == GdsOperation::Read ==> final(self).page_bytes() == old(self).page_bytes(),
            op == GdsOperation::Read ==> final(value)@ == bytes_at(
                old(self).page_bytes()[page as int],
                w.offset as int,
                w.size as int,
            ),
            op == GdsOperation::Write ==> final(value)@ == old(value)@,
            op == GdsOperation::Write ==> final(self).page_bytes() == old(self).page_bytes().update(
                page as int,
                overwrite(old(self).page_bytes()[page as int], w.offset as int, old(value)@),
            ),
    {
        match op {
            GdsOperation::Read => {
                let mut out: Vec<u8> = Vec::new();
                let mut j: usize = 0;
                let n = self.pages[page].len();
                while j < w.size
                    invariant
                        j <= w.size,
                        n == self.pages@[page as int]@.len(),
                        w.offset + w.size <= self.pages@[page as int]@.len(),
                        page < self.pages@.len(),
                        out@ == self.pages@[page as int]@.subrange(w.offset as int, w.offset + j),
                    decreases w.size - j,
                {
                    out.push(self.pages[page][w.offset + j]);
                    j = j + 1;
                    assert(out@ =~= self.pages@[page as int]@.subrange(w.offset as int, w.offset + j));
                }
                *value = out;
            },
            GdsOperation::Write => {
                let ghost before = self.pages@[page as int]@;
                let mut fresh: Vec<u8> = Vec::new();
                let mut j: usize = 0;
                let n = self.pages[page].len();
                while j < n
                    invariant
                        j <= n,
                        n == before.len(),
                        page < self.pages@.len(),
                        self.pages@[page as int]@ == before,
                        w.offset + w.size <= n,
                        value@.len() == w.size,
                        fresh@ =~= overwrite(before, w.offset as int, value@).take(j as int),
                    decreases n - j,
                {
                    if w.offset <= j && j < w.offset + w.size {
                        fresh.push(value[j - w.offset]);
                    } else {
                        fresh.push(self.pages[page][j]);
                    }
                    j = j + 1;
                    assert(fresh@ =~= overwrite(before, w.offset as int, value@).take(j as int));
                }
                assert(fresh@ =~= overwrite(before, w.offset as int, value@));
                self.pages[page] = fresh;
                assert(self.page_bytes() =~= old(self).page_bytes().update(
                    page as int,
                    overwrite(old(self).page_bytes()[page as int], w.offset as int, old(value)@),
                ));
                assert forall|k: int| 0 <= k < self.ports@.len() implies {
                    let p = #[trigger] self.ports@[k];
                    &&& p.page < self.pages@.len()
                    &&& p.location.offset + p.location.size <= self.pages@[p.page as int]@.len()
                } by {
                    assert(old(self).ports@[k] == self.ports@[k]);
                }
            },
        }
    }
}

/// Writing bytes to a port of a space without injected failures, and then
/// reading as many bytes from the same port, succeeds twice and gives back
/// the bytes written. `g2` is the space as the write leaves it.
pub proof fn write_then_read_gives_back(
    g: SimulatedGds,
    g2: SimulatedGds,
    io: Seq<char>,
    port: Seq<char>,
    value: Seq<u8>,
    buffer: Seq<u8>,
)
    requires
        g.wf(),
        g.failing@.len() == 0,
        port_index(g.ports@, io, port) is Some,
        value.len() <= g.found(io, port).location.size,
        g2.ports == g.ports,
        g2.failing == g.failing,
        g2.page_bytes() == g.pages_after(GdsOperation::Write, io, port, value),
        buffer.len() == value.len(),
    ensures
        protocol_result(value.len(), g.replies(io, port)) is None,
        protocol_result(buffer.len(), g2.replies(io, port)) is None,
        g2.value_after(GdsOperation::Read, io, port, buffer) == value,
{
    reveal_with_fuel(crate::gds::first_error, 7);
    index_from_names(g.ports@, io, port, 0);
    let r = g.replies(io, port);
    let all = protocol_calls(value.len(), r);
    assert(all[3] == GdsCall::Copy);
    assert(copies(value.len(), r));
    let p = g.found(io, port);
    let k = port_index(g.ports@, io, port)->Some_0;
    assert(g.ports@[k] == p);
    let page = g.page_bytes()[p.page as int];
    assert(page == g.pages@[p.page as int]@);
    assert(bytes_at(overwrite(page, p.location.offset as int, value), p.location.offset as int, value.len() as int) =~= value);
}

} // verus!
