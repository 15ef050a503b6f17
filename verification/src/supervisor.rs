//! The supervisor's decisions at startup: where to listen, how large the
//! channels between the tasks are, and which tasks run.
use crate::config::{Settings, VerifiedUsersMode};
use crate::error::Error;
use crate::text::{chars_of, decimal, push_char, push_decimal};
use vstd::prelude::*;

verus! {

/// The capacity of the bus that carries metadata events to the verifier.
pub const METADATA_BUFFER: usize = 4096;

/// The capacity of the channel that carries the shutdown signal.
pub const SHUTDOWN_BUFFER: usize = 1;

/// The capacity of a connection's channel for query results.
pub const QUERY_RESULT_BUFFER: usize = 20000;

/// The capacity of a connection's channel for notices.
pub const NOTICE_BUFFER: usize = 128;

/// Whether a character is white space.
pub open spec fn is_space(c: char) -> bool {
    let n = c as u32;
    (0x09 <= n <= 0x0D) || n == 0x20 || n == 0x85 || n == 0xA0 || n == 0x1680 || (0x2000 <= n
        <= 0x200A) || n == 0x2028 || n == 0x2029 || n == 0x202F || n == 0x205F || n == 0x3000
}

/// `s` without the white space at its start.
pub open spec fn trim_start(s: Seq<char>) -> Seq<char>
    decreases s.len(),
{
    if s.len() > 0 && is_space(s.first()) {
        trim_start(s.drop_first())
    } else {
        s
    }
}

/// `s` without the white space at its end.
pub open spec fn trim_end(s: Seq<char>) -> Seq<char>
    decreases s.len(),
{
    if s.len() > 0 && is_space(s.last()) {
        trim_end(s.drop_last())
    } else {
        s
    }
}

/// `s` without the white space at either end.
pub open spec fn trimmed(s: Seq<char>) -> Seq<char> {
    trim_end(trim_start(s))
}

/// The address to listen on, as text: the configured address without the
/// white space around it, a colon, and the port.
pub open spec fn listen_text(address: Seq<char>, port: u16) -> Seq<char> {
    trimmed(address) + seq![':'] + decimal(port as nat)
}

fn space(c: char) -> (b: bool)
    ensures
        b == is_space(c),
{
    let n: u32 = c as u32;
    (0x09 <= n && n <= 0x0D) || n == 0x20 || n == 0x85 || n == 0xA0 || n == 0x1680 || (0x2000 <= n
        && n <= 0x200A) || n == 0x2028 || n == 0x2029 || n == 0x202F || n == 0x205F || n == 0x3000
}

/// Appends `s`, without the white space at either end, to `out`.
pub fn push_trimmed(out: &mut String, s: &str)
    ensures
        final(out)@ == old(out)@ + trimmed(s@),
{
    let cs = chars_of(s);
    assert(cs@.skip(0) =~= cs@);
    let mut start: usize = 0;
    while start < cs.len() && space(cs[start])
        invariant
            start <= cs@.len(),
            trim_start(cs@) == trim_start(cs@.skip(start as int)),
        decreases cs@.len() - start,
    {
        assert(cs@.skip(start as int).first() == cs@[start as int]);
        assert(cs@.skip(start as int).drop_first() =~= cs@.skip(start + 1));
        start += 1;
    }
    assert(trim_start(cs@) == cs@.skip(start as int)) by {
        if start < cs@.len() {
            assert(cs@.skip(start as int).first() == cs@[start as int]);
        }
    }
    let mut end: usize = cs.len();
    while end > start && space(cs[end - 1])
        invariant
            start <= end <= cs@.len(),
            trimmed(cs@) == trim_end(cs@.subrange(start as int, end as int)),
        decreases end,
    {
        assert(cs@.subrange(start as int, end as int).last() == cs@[end - 1]);
        assert(cs@.subrange(start as int, end as int).drop_last() =~= cs@.subrange(
            start as int,
            end - 1,
        ));
        end -= 1;
    }
    assert(trimmed(cs@) == cs@.subrange(start as int, end as int)) by {
        if end > start {
            assert(cs@.subrange(start as int, end as int).last() == cs@[end - 1]);
        }
    }
    let mut i: usize = start;
    while i < end
        invariant
            start <= i <= end <= cs@.len(),
            out@ == old(out)@ + cs@.subrange(start as int, i as int),
        decreases end - i,
    {
        push_char(out, cs[i]);
        assert(cs@.subrange(start as int, i + 1) =~= cs@.subrange(start as int, i as int).push(
            cs@[i as int],
        ));
        i += 1;
    }
}

/// The address to listen on, as text.
pub fn listen_address(address: &str, port: u16) -> (text: String)
    ensures
        text@ == listen_text(address@, port),
{
    let mut out = String::new();
    push_trimmed(&mut out, address);
    push_char(&mut out, ':');
    push_decimal(&mut out, port as u64);
    assert(out@ =~= listen_text(address@, port));
    out
}

/// What the supervisor sets up before it serves.
#[derive(Clone, Debug, PartialEq, Eq)]
pub struct Plan {
    /// The address to bind the listener to.
    pub listen: String,
    /// The capacity of the broadcast bus of accepted events.
    pub broadcast_buffer: usize,
    /// The capacity of the submission channel to the writer.
    pub persist_buffer: usize,
    /// The capacity of the metadata bus.
    pub metadata_buffer: usize,
    /// The capacity of the shutdown channel.
    pub shutdown_buffer: usize,
    /// The size of the pool that runs historical queries.
    pub max_blocking_threads: usize,
    /// Whether the verifier task runs.
    pub run_verifier: bool,
}

/// The mathematical value of a [`Plan`].
pub struct PlanView {
    pub listen: Seq<char>,
    pub broadcast_buffer: usize,
    pub persist_buffer: usize,
    pub metadata_buffer: usize,
    pub shutdown_buffer: usize,
    pub max_blocking_threads: usize,
    pub run_verifier: bool,
}

impl View for Plan {
    type V = PlanView;

    open spec fn view(&self) -> PlanView {
        PlanView {
            listen: self.listen@,
            broadcast_buffer: self.broadcast_buffer,
            persist_buffer: self.persist_buffer,
            metadata_buffer: self.metadata_buffer,
            shutdown_buffer: self.shutdown_buffer,
            max_blocking_threads: self.max_blocking_threads,
            run_verifier: self.run_verifier,
        }
    }
}

/// The plan that follows from the settings.
pub open spec fn plan_of(settings: Settings) -> PlanView {
    PlanView {
        listen: listen_text(settings.network.address@, settings.network.port),
        broadcast_buffer: settings.limits.broadcast_buffer,
        persist_buffer: settings.limits.event_persist_buffer,
        metadata_buffer: METADATA_BUFFER,
        shutdown_buffer: SHUTDOWN_BUFFER,
        max_blocking_threads: settings.limits.max_blocking_threads,
        run_verifier: settings.verified_users.mode != VerifiedUsersMode::Disabled,
    }
}

/// The value of a startup decision.
pub open spec fn planned(r: Result<Plan, Error>) -> Result<PlanView, Error> {
    match r {
        Ok(p) => Ok(p@),
        Err(e) => Err(e),
    }
}

/// Checks the settings and lays out what to start: without the database
/// directory nothing starts.
pub fn plan(settings: &Settings, data_directory_exists: bool) -> (r: Result<Plan, Error>)
    ensures
        planned(r) == (if data_directory_exists {
            Ok(plan_of(*settings))
        } else {
            Err(Error::DatabaseDirError)
        }),
{
    if !data_directory_exists {
        return Err(Error::DatabaseDirError);
    }
    Ok(
        Plan {
            listen: listen_address(settings.network.address.as_str(), settings.network.port),
            broadcast_buffer: settings.limits.broadcast_buffer,
            persist_buffer: settings.limits.event_persist_buffer,
            metadata_buffer: METADATA_BUFFER,
            shutdown_buffer: SHUTDOWN_BUFFER,
            max_blocking_threads: settings.limits.max_blocking_threads,
            run_verifier: settings.verified_users.is_active(),
        },
    )
}

} // verus!
