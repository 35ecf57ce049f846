use vstd::prelude::*;

use crate::output::Output;
use crate::vmtest::Vmtest;

verus! {

/// sysexits.h catchall exit code used when the VM could not run the command.
pub const EX_UNAVAILABLE: i32 = 69;

/// Console UI.
///
/// This struct carries the run data for the front end, which renders the
/// event stream on a terminal.  The decisions the front end needs — the
/// outcome of a target and the process exit code — are computed here.
pub struct Ui {
    /// The runs to drive.
    pub vmtest: Vmtest,
}

/// An exit code clamped to the platform's exit-code width.
pub open spec fn clamp_i32(v: int) -> int {
    if v > i32::MAX {
        i32::MAX as int
    } else if v < i32::MIN {
        i32::MIN as int
    } else {
        v
    }
}

/// The outcome a receiver of the event stream reports for one target:
/// `None` when the harness failed, otherwise the (clamped) exit code of the
/// command, folded left to right over the events.
pub open spec fn outcome_fold(os: Seq<Output>, acc: Option<int>) -> Option<int>
    decreases os.len(),
{
    if os.len() == 0 {
        acc
    } else {
        let next = match os[0] {
            Output::BootEnd(r) => if r is Err {
                Option::<int>::None
            } else {
                acc
            },
            Output::WaitEnd(r) => if r is Err {
                Option::<int>::None
            } else {
                acc
            },
            Output::SetupEnd(r) => if r is Err {
                Option::<int>::None
            } else {
                acc
            },
            Output::CommandEnd(r) => match r {
                Ok(code) => Some(clamp_i32(code as int)),
                Err(_) => Option::<int>::None,
            },
            _ => acc,
        };
        outcome_fold(os.drop_first(), next)
    }
}

/// The reported outcome of a finished event stream.
pub open spec fn outcome_spec(os: Seq<Output>) -> Option<int> {
    outcome_fold(os, Some(0))
}

fn clamp_exit_code(v: i64) -> (r: i32)
    ensures
        r as int == clamp_i32(v as int),
{
    if v > i32::MAX as i64 {
        i32::MAX
    } else if v < i32::MIN as i64 {
        i32::MIN
    } else {
        v as i32
    }
}

/// Fold a finished event stream into the outcome of its target: `None` when
/// the harness failed, otherwise the exit code of the command.
pub fn target_outcome(events: &Vec<Output>) -> (r: Option<i32>)
    ensures
        match r {
            Some(v) => outcome_spec(events@) == Some(v as int),
            None => outcome_spec(events@) is None,
        },
{
    let ghost all = events@;
    let mut acc: Option<i32> = Some(0);
    let mut i: usize = 0;
    proof {
        assert(all.skip(0) =~= all);
    }
    while i < events.len()
        invariant
            i <= events@.len(),
            events@ == all,
            outcome_spec(all) == outcome_fold(
                all.skip(i as int),
                match acc {
                    Some(v) => Some(v as int),
                    None => None,
                },
            ),
        decreases events@.len() - i,
    {
        let next: Option<i32> = match &events[i] {
            Output::BootEnd(r) => if r.is_err() {
                None
            } else {
                acc
            },
            Output::WaitEnd(r) => if r.is_err() {
                None
            } else {
                acc
            },
            Output::SetupEnd(r) => if r.is_err() {
                None
            } else {
                acc
            },
            Output::CommandEnd(r) => match r {
                Ok(code) => Some(clamp_exit_code(*code)),
                Err(_) => None,
            },
            _ => acc,
        };
        proof {
            assert(all.skip(i as int)[0] == all[i as int]);
            assert(all.skip(i as int).drop_first() =~= all.skip(i as int + 1));
        }
        acc = next;
        i = i + 1;
    }
    acc
}

/// The process exit code for a whole run: with a single target, its exit
/// code, or `EX_UNAVAILABLE` when the harness failed; with several targets,
/// how many of them did not finish with exit code zero.
pub open spec fn summary_spec(rcs: Seq<Option<i32>>) -> int {
    if rcs.len() == 1 {
        match rcs[0] {
            Some(v) => v as int,
            None => EX_UNAVAILABLE as int,
        }
    } else {
        rcs.filter(|rc: Option<i32>| rc != Some(0i32)).len() as int
    }
}

/// Reduce per-target outcomes to the process exit code.
pub fn run_summary(rcs: &Vec<Option<i32>>) -> (r: i32)
    requires
        rcs@.len() <= i32::MAX,
    ensures
        r as int == summary_spec(rcs@),
{
    if rcs.len() == 1 {
        match rcs[0] {
            Some(v) => v,
            None => EX_UNAVAILABLE,
        }
    } else {
        let mut failed: i32 = 0;
        let mut i: usize = 0;
        proof {
            assert(rcs@.take(0).filter(|rc: Option<i32>| rc != Some(0i32)) =~= Seq::<
                Option<i32>,
            >::empty());
        }
        while i < rcs.len()
            invariant
                i <= rcs@.len(),
                rcs@.len() <= i32::MAX,
                failed as int == rcs@.take(i as int).filter(
                    |rc: Option<i32>| rc != Some(0i32),
                ).len(),
                failed <= i,
            decreases rcs@.len() - i,
        {
            let is_pass = match rcs[i] {
                Some(v) => v == 0,
                None => false,
            };
            proof {
                assert(rcs@.take(i as int + 1).drop_last() =~= rcs@.take(i as int));
                assert(rcs@.take(i as int + 1).last() == rcs@[i as int]);
                reveal_with_fuel(Seq::filter, 2);
            }
            if !is_pass {
                failed = failed + 1;
            }
            i = i + 1;
        }
        proof {
            assert(rcs@.take(rcs@.len() as int) =~= rcs@);
        }
        failed
    }
}

/// Whether or not to collapse command output in the UI.
///
/// This is useful for one-liner invocations, where no configuration file was
/// given.
pub fn show_cmd(config: &Option<String>) -> (r: bool)
    ensures
        r == (config is None),
{
    config.is_none()
}

/// Returns an unstyled heading with provided depth.
pub fn heading(name: &str, depth: usize) -> (r: String)
    requires
        1 <= depth,
        (depth - 1) * 2 <= 1024,
    ensures
        r@ == "="@ + Seq::new(((depth - 1) * 2) as nat, |i: int| '=') + "> "@ + name@,
{
    let middle = eq_bar((depth - 1) * 2);
    String::from_str("=").concat(middle.as_str()).concat("> ").concat(name)
}

fn eq_bar(n: usize) -> (r: String)
    ensures
        r@ == Seq::new(n as nat, |i: int| '='),
{
    proof {
        reveal_strlit("=");
    }
    let mut r = String::new();
    let mut i: usize = 0;
    proof {
        assert(r@ =~= Seq::new(0, |k: int| '='));
    }
    while i < n
        invariant
            i <= n,
            r@ == Seq::new(i as nat, |k: int| '='),
        decreases n - i,
    {
        r.append("=");
        proof {
            reveal_strlit("=");
            assert("="@ =~= seq!['=']);
            assert(Seq::new(i as nat, |k: int| '=') + seq!['='] =~= Seq::new(
                i as nat + 1,
                |k: int| '=',
            ));
        }
        i = i + 1;
    }
    r
}

impl Ui {
    /// Construct a new UI.
    pub fn new(vmtest: Vmtest) -> (r: Self)
        ensures
            r.vmtest == vmtest,
    {
        Ui { vmtest }
    }
}

} // verus!
