use vstd::prelude::*;
use crate::config::VMConfig;
use crate::quote::{quote_word, quoted};
use crate::text::{decimal, push_decimal};

verus! {

/// How often a running control script is checked, in milliseconds.
pub const POLL_INTERVAL_MS: u64 = 25;

/// Time allowed on top of the run's own timeout for creating and deleting
/// the instance, in milliseconds.
pub const TEARDOWN_GRACE_MS: u64 = 2000;

/// The exit code reported for a run that hit its deadline, as the shell's
/// `timeout` utility reports it.
pub const TIMEOUT_EXIT_CODE: i32 = 124;

/// The guest path of the launcher script.
pub const GUEST_RUNNER: &'static str = "/work/scripts/run.py";

/// The hard deadline of the control script: the run's timeout plus the
/// teardown grace, saturating at the largest value.
pub open spec fn deadline_of(timeout_ms: u64) -> u64 {
    if timeout_ms as int + TEARDOWN_GRACE_MS as int > u64::MAX as int {
        u64::MAX
    } else {
        (timeout_ms + TEARDOWN_GRACE_MS) as u64
    }
}

pub fn hard_deadline(timeout_ms: u64) -> (r: u64)
    ensures
        r == deadline_of(timeout_ms),
{
    timeout_ms.saturating_add(TEARDOWN_GRACE_MS)
}

/// ` --port host:guest` for each pair.
pub open spec fn port_args(ports: Seq<(u16, u16)>) -> Seq<char>
    decreases ports.len(),
{
    if ports.len() == 0 {
        Seq::empty()
    } else {
        port_args(ports.drop_last()) + " --port "@ + decimal(ports.last().0 as nat) + ":"@
            + decimal(ports.last().1 as nat)
    }
}

/// Deletes the instance `vm`, forcibly first, never failing.
pub open spec fn delete_command(vm: Seq<char>) -> Seq<char> {
    "krunvm delete -f "@ + quoted(vm, false) + " >/dev/null 2>&1 || krunvm delete "@ + quoted(vm, false)
        + " >/dev/null 2>&1 || true"@
}

pub fn delete_instance(vm: &str) -> (r: String)
    ensures
        r@ == delete_command(vm@),
{
    let q = quote_word(vm, false);
    let mut r = "krunvm delete -f ".to_owned();
    r.append(q.as_str());
    r.append(" >/dev/null 2>&1 || krunvm delete ");
    r.append(q.as_str());
    r.append(" >/dev/null 2>&1 || true");
    r
}

/// Starts the instance `vm` on the guest launcher.
pub open spec fn start_command(vm: Seq<char>) -> Seq<char> {
    "krunvm start "@ + quoted(vm, false) + " /usr/bin/env python3 "@ + quoted(GUEST_RUNNER@, false)
}

/// Creates the instance: resources, guest workdir, the workspace mounted at
/// `/work`, port forwards when networking is on, then the image.
pub open spec fn create_command(c: VMConfig, vm: Seq<char>, work: Seq<char>, image: Seq<char>) -> Seq<char> {
    "krunvm create --cpus "@ + decimal(c.cpus as nat) + " --mem "@ + decimal(c.memory_mb as nat)
        + " --workdir "@ + quoted(c.workdir@, false) + " --name "@ + quoted(vm, false)
        + " --volume "@ + quoted(work + ":/work"@, false) + (if c.network {
        port_args(c.ports@)
    } else {
        Seq::empty()
    }) + " "@ + quoted(image, false) + " >/dev/null"@
}

/// The control script: create the instance, start it up to three times
/// until it succeeds, delete it whatever happened, exit with the start's code.
pub open spec fn control_script_text(c: VMConfig, vm: Seq<char>, work: Seq<char>, image: Seq<char>) -> Seq<char> {
    "set -e\n"@ + create_command(c, vm, work, image)
        + "\nset +e\ntries=0\nec=1\nwhile [ $tries -lt 3 ]; do\n"@ + start_command(vm)
        + "\nec=$?\n[ $ec -eq 0 ] && break\ntries=$((tries+1))\nsleep 0.15\ndone\nset -e\n"@
        + delete_command(vm) + "\nexit $ec\n"@
}

fn push_ports(s: &mut String, ports: &Vec<(u16, u16)>)
    ensures
        final(s)@ == old(s)@ + port_args(ports@),
{
    let mut i: usize = 0;
    while i < ports.len()
        invariant
            i <= ports.len(),
            s@ == old(s)@ + port_args(ports@.subrange(0, i as int)),
        decreases ports.len() - i,
    {
        let (h, g) = ports[i];
        assert(ports@.subrange(0, i + 1).drop_last() == ports@.subrange(0, i as int));
        s.append(" --port ");
        push_decimal(s, h as u64);
        s.append(":");
        push_decimal(s, g as u64);
        i = i + 1;
    }
    assert(ports@.subrange(0, ports.len() as int) == ports@);
}

fn create_line(config: &VMConfig, vm: &str, work: &str, image: &str) -> (r: String)
    ensures
        r@ == create_command(*config, vm@, work@, image@),
{
    let mut r = "krunvm create --cpus ".to_owned();
    push_decimal(&mut r, config.cpus as u64);
    r.append(" --mem ");
    push_decimal(&mut r, config.memory_mb as u64);
    r.append(" --workdir ");
    r.append(quote_word(config.workdir.as_str(), false).as_str());
    r.append(" --name ");
    r.append(quote_word(vm, false).as_str());
    r.append(" --volume ");
    let mut volume = work.to_owned();
    volume.append(":/work");
    r.append(quote_word(volume.as_str(), false).as_str());
    if config.network {
        push_ports(&mut r, &config.ports);
    }
    r.append(" ");
    r.append(quote_word(image, false).as_str());
    r.append(" >/dev/null");
    r
}

fn start_line(vm: &str) -> (r: String)
    ensures
        r@ == start_command(vm@),
{
    let mut r = "krunvm start ".to_owned();
    r.append(quote_word(vm, false).as_str());
    r.append(" /usr/bin/env python3 ");
    r.append(quote_word(GUEST_RUNNER, false).as_str());
    r
}

/// Builds the control script for instance `vm`, with the workspace
/// directory `work` and the store image `image`.
pub fn control_script(config: &VMConfig, vm: &str, work: &str, image: &str) -> (r: String)
    ensures
        r@ == control_script_text(*config, vm@, work@, image@),
{
    let mut r = "set -e\n".to_owned();
    r.append(create_line(config, vm, work, image).as_str());
    r.append("\nset +e\ntries=0\nec=1\nwhile [ $tries -lt 3 ]; do\n");
    r.append(start_line(vm).as_str());
    r.append("\nec=$?\n[ $ec -eq 0 ] && break\ntries=$((tries+1))\nsleep 0.15\ndone\nset -e\n");
    r.append(delete_instance(vm).as_str());
    r.append("\nexit $ec\n");
    r
}

/// The state of the child running a control script, as last observed.
#[derive(Debug, Clone, Copy, PartialEq, Eq)]
pub enum Observation {
    /// Still running, `elapsed_ms` after it was started.
    Running { elapsed_ms: u64 },
    /// Exited: its code (none when a signal ended it) and whether it succeeded.
    Exited { code: Option<i32>, success: bool },
}

/// What the supervising loop does next.
#[derive(Debug, Clone, Copy, PartialEq, Eq)]
pub enum Verdict {
    /// Sleep this many milliseconds, then observe again.
    Wait(u64),
    /// Kill the child, wait for it, then observe again.
    Kill,
    /// Join both stream readers and report.
    Finish { exit_code: i32, success: bool, timed_out: bool },
}

/// Watches one control script against its hard deadline.
#[derive(Debug, Clone, Copy, PartialEq, Eq)]
pub struct Supervisor {
    pub deadline_ms: u64,
    /// The child was killed at the deadline.
    pub timed_out: bool,
}

/// The decision on one observation.
pub open spec fn verdict_for(s: Supervisor, o: Observation) -> Verdict {
    match o {
        Observation::Running { elapsed_ms } => if elapsed_ms >= s.deadline_ms {
            Verdict::Kill
        } else {
            Verdict::Wait(POLL_INTERVAL_MS)
        },
        Observation::Exited { code, success } => Verdict::Finish {
            exit_code: if s.timed_out {
                TIMEOUT_EXIT_CODE
            } else {
                match code {
                    Some(c) => c,
                    None => -1i32,
                }
            },
            success,
            timed_out: s.timed_out,
        },
    }
}

impl Supervisor {
    /// A supervisor for a run with the configured timeout.
    pub fn new(timeout_ms: u64) -> (r: Supervisor)
        ensures
            r.deadline_ms == deadline_of(timeout_ms),
            !r.timed_out,
    {
        Supervisor { deadline_ms: hard_deadline(timeout_ms), timed_out: false }
    }

    /// Decides on an observation; deciding to kill marks the run as timed out.
    pub fn observe(&mut self, o: Observation) -> (v: Verdict)
        ensures
            v == verdict_for(*old(self), o),
            final(self).deadline_ms == old(self).deadline_ms,
            final(self).timed_out == (old(self).timed_out || v is Kill),
    {
        match o {
            Observation::Running { elapsed_ms } => if elapsed_ms >= self.deadline_ms {
                self.timed_out = true;
                Verdict::Kill
            } else {
                Verdict::Wait(POLL_INTERVAL_MS)
            },
            Observation::Exited { code, success } => {
                let exit_code = if self.timed_out {
                    TIMEOUT_EXIT_CODE
                } else {
                    match code {
                        Some(c) => c,
                        None => -1,
                    }
                };
                Verdict::Finish { exit_code, success, timed_out: self.timed_out }
            },
        }
    }
}

/// Whether the instance must be deleted once more after the script: when it
/// timed out or failed, the script's own deletion may not have run.
pub fn needs_extra_cleanup(timed_out: bool, success: bool) -> (r: bool)
    ensures
        r == (timed_out || !success),
{
    timed_out || !success
}

/// Timeout behaviour: before the deadline the supervisor only waits one
/// poll interval; at or past it, it kills; and once it has killed, the run
/// finishes with the timeout exit code whatever status the killed child
/// reports.
pub proof fn law_deadline_enforced(timeout_ms: u64, s: Supervisor, elapsed_ms: u64, code: Option<i32>, success: bool)
    requires
        s.deadline_ms == deadline_of(timeout_ms),
    ensures
        elapsed_ms < s.deadline_ms ==> verdict_for(s, Observation::Running { elapsed_ms }) == Verdict::Wait(
            POLL_INTERVAL_MS,
        ),
        elapsed_ms >= s.deadline_ms ==> verdict_for(s, Observation::Running { elapsed_ms })
            == Verdict::Kill,
        s.deadline_ms >= timeout_ms,
        ({
            let killed = Supervisor { deadline_ms: s.deadline_ms, timed_out: true };
            verdict_for(killed, Observation::Exited { code, success }) matches Verdict::Finish {
                exit_code,
                timed_out,
                ..
            } && exit_code == TIMEOUT_EXIT_CODE && timed_out
        }),
{
}

} // verus!
