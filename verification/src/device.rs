//! The device lifecycle: grouping a graphics device with its sibling PCI
//! functions, probing each function's live state, and the unbind / remove
//! protocol.  Removal of a function still claimed by a driver is never
//! attempted; unbind releases driver claims first, removal follows in a
//! second pass.
//!
//! The hardware mutation itself (the unbind and remove sysfs writes) cannot
//! stand here; the pass planners below decide, under exact contracts, what
//! those calls must do for every possible bus state, and an unverified shell
//! performs them in the planned order.

use vstd::prelude::*;
use crate::error::GraphicsDeviceError;
use crate::pci::{pci_device, pci_path_exists, pci_driver, pci_driver_id, DriverLookup};

verus! {

/// A graphics device: its bus address and the bus addresses of every PCI
/// function sharing its slot (the device itself included).
pub struct GraphicsDevice {
    pub id: String,
    pub functions: Vec<String>,
}

impl GraphicsDevice {
    /// A device from its bus address and its sibling functions.
    pub fn new(id: String, functions: Vec<String>) -> (d: GraphicsDevice)
        ensures
            d.id == id,
            d.functions == functions,
    {
        GraphicsDevice { id, functions }
    }

    /// Whether any function of the device is still present on the bus: the
    /// disjunction, through `any_present`, of one fresh presence probe per
    /// function.  The bus is re-read on every call; nothing is cached, and a
    /// device with no functions is never present.
    pub fn is_present(&self) -> (r: bool)
        ensures
            self.functions@.len() == 0 ==> !r,
    {
        let mut bits: Vec<bool> = Vec::new();
        let mut i: usize = 0;
        while i < self.functions.len()
            invariant
                i <= self.functions@.len(),
                bits@.len() == i,
            decreases self.functions@.len() - i,
        {
            bits.push(function_present(self.functions[i].as_str()));
            i = i + 1;
        }
        any_present(&bits)
    }
}

/// Probe whether one function's sysfs node is present.  The answer is the
/// live bus's; nothing is promised of it.
pub fn function_present(func: &str) -> bool {
    match pci_device(func) {
        Some(dev) => pci_path_exists(&dev),
        None => false,
    }
}

/// Some probed function is present.
pub open spec fn spec_any_present(bits: Seq<bool>) -> bool {
    exists|k: int| 0 <= k < bits.len() && bits[k]
}

/// The disjunction of per-function presence results.
pub fn any_present(bits: &Vec<bool>) -> (r: bool)
    ensures
        r == spec_any_present(bits@),
{
    let mut i: usize = 0;
    while i < bits.len()
        invariant
            i <= bits@.len(),
            forall|k: int| 0 <= k < i ==> !bits@[k],
        decreases bits@.len() - i,
    {
        if bits[i] {
            return true;
        }
        i = i + 1;
    }
    false
}

/// What a probe of one PCI function found on the live bus.
#[derive(Debug, Clone, PartialEq, Eq)]
pub enum DriverState {
    /// The function is no longer present.
    Missing,
    /// Present, and the driver lookup reported not-found: nothing is bound.
    Unbound,
    /// Present and claimed by the named driver.
    Bound { driver: String },
    /// Present, but the driver lookup failed in an unexpected way.
    LookupFailed { why: String },
}

/// One function's bus address together with its probed state.
#[derive(Debug, Clone, PartialEq, Eq)]
pub struct FunctionReport {
    pub func: String,
    pub state: DriverState,
}

/// Merge the answers drawn from the bus for one function — whether a device
/// handle was found, whether its path is present, and the driver lookup
/// (drawn only for present functions) — into its probed state.  The function
/// is missing exactly when it was not found whole; otherwise a found driver
/// means bound, a not-found lookup means unbound, and a failed lookup keeps
/// its message.  Only the bound driver's name stays unpromised: it is the
/// bus's answer.
pub fn merge_function_state(found: bool, path_present: bool, lookup: Option<DriverLookup>) -> (s:
    DriverState)
    ensures
        s is Missing <==> !(found && path_present && lookup is Some),
        found && path_present ==> match lookup {
            Some(DriverLookup::Found(_)) => s is Bound,
            Some(DriverLookup::NotFound) => s is Unbound,
            Some(DriverLookup::Failed(why)) => s matches DriverState::LookupFailed { why: w }
                && w@ == why@,
            None => s is Missing,
        },
{
    if !(found && path_present) {
        return DriverState::Missing;
    }
    match lookup {
        None => DriverState::Missing,
        Some(DriverLookup::Found(driver)) => DriverState::Bound {
            driver: pci_driver_id(&driver),
        },
        Some(DriverLookup::NotFound) => DriverState::Unbound,
        Some(DriverLookup::Failed(why)) => DriverState::LookupFailed { why },
    }
}

/// Probe one function's current state on the bus: draw the device handle,
/// its presence and — when present — the driver lookup, and merge them
/// through `merge_function_state`, whose contract fixes the mapping.  What
/// the draws answer is the live bus's business; the pass planners state what
/// follows from every outcome.
pub fn probe_function(func: &str) -> (r: FunctionReport)
    ensures
        r.func@ == func@,
{
    let (found, path_present, lookup) = match pci_device(func) {
        None => (false, false, None),
        Some(dev) => {
            if !pci_path_exists(&dev) {
                (true, false, None)
            } else {
                let l = pci_driver(&dev);
                (true, true, Some(l))
            }
        },
    };
    let state = merge_function_state(found, path_present, lookup);
    FunctionReport { func: func.to_owned(), state }
}

/// Probe every function of a device, in function order.
pub fn probe_device(dev: &GraphicsDevice) -> (r: Vec<FunctionReport>)
    ensures
        r@.len() == dev.functions@.len(),
        forall|k: int| 0 <= k < r@.len() ==> (#[trigger] r@[k]).func@ == dev.functions@[k]@,
{
    let mut reports: Vec<FunctionReport> = Vec::new();
    let mut i: usize = 0;
    while i < dev.functions.len()
        invariant
            i <= dev.functions@.len(),
            reports@.len() == i,
            forall|k: int|
                0 <= k < i ==> (#[trigger] reports@[k]).func@ == dev.functions@[k]@,
        decreases dev.functions@.len() - i,
    {
        reports.push(probe_function(dev.functions[i].as_str()));
        i = i + 1;
    }
    reports
}

/// The functions an unbind pass detaches: every bound function that stands
/// before the first failed lookup, in order.
pub open spec fn spec_unbind_ops(rs: Seq<FunctionReport>) -> Seq<FunctionReport>
    decreases rs.len(),
{
    if rs.len() == 0 {
        Seq::empty()
    } else {
        match rs.first().state {
            DriverState::LookupFailed { .. } => Seq::empty(),
            DriverState::Bound { .. } => seq![rs.first()] + spec_unbind_ops(rs.drop_first()),
            _ => spec_unbind_ops(rs.drop_first()),
        }
    }
}

/// The first failed lookup an unbind pass runs into, if any.
pub open spec fn spec_unbind_failure(rs: Seq<FunctionReport>) -> Option<FunctionReport>
    decreases rs.len(),
{
    if rs.len() == 0 {
        None
    } else if rs.first().state is LookupFailed {
        Some(rs.first())
    } else {
        spec_unbind_failure(rs.drop_first())
    }
}

/// The functions a removal pass removes: every unbound function before the
/// first stop — a bound function or a failed lookup.
pub open spec fn spec_remove_ops(rs: Seq<FunctionReport>) -> Seq<FunctionReport>
    decreases rs.len(),
{
    if rs.len() == 0 {
        Seq::empty()
    } else {
        match rs.first().state {
            DriverState::Missing => spec_remove_ops(rs.drop_first()),
            DriverState::Unbound => seq![rs.first()] + spec_remove_ops(rs.drop_first()),
            _ => Seq::empty(),
        }
    }
}

/// What stops a removal pass, if anything: the first function that is still
/// bound, or whose lookup failed.
pub open spec fn spec_remove_failure(rs: Seq<FunctionReport>) -> Option<FunctionReport>
    decreases rs.len(),
{
    if rs.len() == 0 {
        None
    } else {
        match rs.first().state {
            DriverState::Missing => spec_remove_failure(rs.drop_first()),
            DriverState::Unbound => spec_remove_failure(rs.drop_first()),
            _ => Some(rs.first()),
        }
    }
}

/// The bus state a removal pass leaves, assuming each planned removal call
/// succeeds: removed functions become missing, and from the first stop on
/// nothing is touched.
pub open spec fn spec_after_remove(rs: Seq<FunctionReport>) -> Seq<FunctionReport>
    decreases rs.len(),
{
    if rs.len() == 0 {
        Seq::empty()
    } else {
        match rs.first().state {
            DriverState::Missing => seq![rs.first()] + spec_after_remove(rs.drop_first()),
            DriverState::Unbound => seq![
                FunctionReport { func: rs.first().func, state: DriverState::Missing },
            ] + spec_after_remove(rs.drop_first()),
            _ => rs,
        }
    }
}

/// What an unbind or removal pass over one device resolves to: the hardware
/// calls to make, in order, and the error to surface after making them, if
/// the pass ran into one.
pub struct PassPlan {
    pub actions: Vec<FunctionReport>,
    pub failure: Option<GraphicsDeviceError>,
}

fn duplicate_report(r: &FunctionReport) -> (d: FunctionReport)
    ensures
        d == *r,
{
    let state = match &r.state {
        DriverState::Missing => DriverState::Missing,
        DriverState::Unbound => DriverState::Unbound,
        DriverState::Bound { driver } => DriverState::Bound { driver: driver.clone() },
        DriverState::LookupFailed { why } => DriverState::LookupFailed { why: why.clone() },
    };
    FunctionReport { func: r.func.clone(), state }
}

/// Plan an unbind pass over a device's probed functions.  Every bound
/// function before the first failed lookup is to be detached from its
/// driver; a failed lookup surfaces as a PCI driver error naming the device.
pub fn unbind_pass(dev_id: &str, reports: &Vec<FunctionReport>) -> (p: PassPlan)
    ensures
        p.actions@ == spec_unbind_ops(reports@),
        spec_unbind_failure(reports@) is None <==> p.failure is None,
        spec_unbind_failure(reports@) matches Some(rep) ==> (p.failure matches Some(
            e,
        ) && e matches GraphicsDeviceError::PciDriver { device, why } && device@ == dev_id@
            && (rep.state matches DriverState::LookupFailed { why: w } && why@ == w@)),
{
    let mut actions: Vec<FunctionReport> = Vec::new();
    let mut i: usize = 0;
    proof {
        assert(reports@.skip(0) =~= reports@);
        assert(actions@ + spec_unbind_ops(reports@) =~= spec_unbind_ops(reports@));
    }
    while i < reports.len()
        invariant
            i <= reports@.len(),
            spec_unbind_ops(reports@) == actions@ + spec_unbind_ops(reports@.skip(i as int)),
            spec_unbind_failure(reports@) == spec_unbind_failure(reports@.skip(i as int)),
        decreases reports@.len() - i,
    {
        let ghost suffix = reports@.skip(i as int);
        proof {
            assert(suffix.first() == reports@[i as int]);
            assert(suffix.drop_first() =~= reports@.skip(i + 1));
        }
        match &reports[i].state {
            DriverState::LookupFailed { why } => {
                proof {
                    assert(actions@ + Seq::<FunctionReport>::empty() =~= actions@);
                }
                return PassPlan {
                    actions,
                    failure: Some(GraphicsDeviceError::PciDriver {
                        device: dev_id.to_owned(),
                        why: why.clone(),
                    }),
                };
            },
            DriverState::Bound { .. } => {
                let rep = duplicate_report(&reports[i]);
                proof {
                    assert((actions@ + seq![reports@[i as int]]) + spec_unbind_ops(
                        reports@.skip(i + 1),
                    ) =~= actions@ + (seq![reports@[i as int]] + spec_unbind_ops(
                        reports@.skip(i + 1),
                    )));
                }
                actions.push(rep);
            },
            _ => {},
        }
        i = i + 1;
    }
    proof {
        assert(reports@.skip(reports@.len() as int) =~= Seq::<FunctionReport>::empty());
        assert(actions@ + Seq::<FunctionReport>::empty() =~= actions@);
    }
    PassPlan { actions, failure: None }
}

/// Plan a removal pass over a device's probed functions.  Functions already
/// missing are skipped; unbound functions are removed in order; the first
/// function still bound stops the pass with a device-in-use error — removal
/// of a claimed device is never attempted — and a failed lookup stops it
/// with a PCI driver error.
pub fn remove_pass(dev_id: &str, reports: &Vec<FunctionReport>) -> (p: PassPlan)
    ensures
        p.actions@ == spec_remove_ops(reports@),
        spec_remove_failure(reports@) is None <==> p.failure is None,
        spec_remove_failure(reports@) matches Some(rep) ==> (p.failure matches Some(e) && ((
        rep.state matches DriverState::Bound { driver } && e
            matches GraphicsDeviceError::DeviceInUse { func, driver: d } && func@ == rep.func@
            && d@ == driver@) || (rep.state matches DriverState::LookupFailed { why: w } && e
            matches GraphicsDeviceError::PciDriver { device, why } && device@ == dev_id@
            && why@ == w@))),
{
    let mut actions: Vec<FunctionReport> = Vec::new();
    let mut i: usize = 0;
    proof {
        assert(reports@.skip(0) =~= reports@);
        assert(actions@ + spec_remove_ops(reports@) =~= spec_remove_ops(reports@));
    }
    while i < reports.len()
        invariant
            i <= reports@.len(),
            spec_remove_ops(reports@) == actions@ + spec_remove_ops(reports@.skip(i as int)),
            spec_remove_failure(reports@) == spec_remove_failure(reports@.skip(i as int)),
        decreases reports@.len() - i,
    {
        let ghost suffix = reports@.skip(i as int);
        proof {
            assert(suffix.first() == reports@[i as int]);
            assert(suffix.drop_first() =~= reports@.skip(i + 1));
        }
        match &reports[i].state {
            DriverState::Bound { driver } => {
                proof {
                    assert(actions@ + Seq::<FunctionReport>::empty() =~= actions@);
                }
                return PassPlan {
                    actions,
                    failure: Some(GraphicsDeviceError::DeviceInUse {
                        func: reports[i].func.clone(),
                        driver: driver.clone(),
                    }),
                };
            },
            DriverState::LookupFailed { why } => {
                proof {
                    assert(actions@ + Seq::<FunctionReport>::empty() =~= actions@);
                }
                return PassPlan {
                    actions,
                    failure: Some(GraphicsDeviceError::PciDriver {
                        device: dev_id.to_owned(),
                        why: why.clone(),
                    }),
                };
            },
            DriverState::Unbound => {
                let rep = duplicate_report(&reports[i]);
                proof {
                    assert((actions@ + seq![reports@[i as int]]) + spec_remove_ops(
                        reports@.skip(i + 1),
                    ) =~= actions@ + (seq![reports@[i as int]] + spec_remove_ops(
                        reports@.skip(i + 1),
                    )));
                }
                actions.push(rep);
            },
            DriverState::Missing => {},
        }
        i = i + 1;
    }
    proof {
        assert(reports@.skip(reports@.len() as int) =~= Seq::<FunctionReport>::empty());
        assert(actions@ + Seq::<FunctionReport>::empty() =~= actions@);
    }
    PassPlan { actions, failure: None }
}

/// The bus state a removal pass leaves, assuming each planned removal call
/// succeeds.  The live protocol re-probes the bus instead of trusting this;
/// it is the reference for reasoning about repeated passes.
pub fn apply_remove(reports: &Vec<FunctionReport>) -> (r: Vec<FunctionReport>)
    ensures
        r@ == spec_after_remove(reports@),
{
    let mut out: Vec<FunctionReport> = Vec::new();
    let mut i: usize = 0;
    proof {
        assert(reports@.skip(0) =~= reports@);
        assert(out@ + spec_after_remove(reports@) =~= spec_after_remove(reports@));
    }
    while i < reports.len()
        invariant
            i <= reports@.len(),
            spec_after_remove(reports@) == out@ + spec_after_remove(reports@.skip(i as int)),
        decreases reports@.len() - i,
    {
        let ghost suffix = reports@.skip(i as int);
        proof {
            assert(suffix.first() == reports@[i as int]);
            assert(suffix.drop_first() =~= reports@.skip(i + 1));
        }
        match &reports[i].state {
            DriverState::Missing => {
                let rep = duplicate_report(&reports[i]);
                proof {
                    assert((out@ + seq![reports@[i as int]]) + spec_after_remove(
                        reports@.skip(i + 1),
                    ) =~= out@ + (seq![reports@[i as int]] + spec_after_remove(
                        reports@.skip(i + 1),
                    )));
                }
                out.push(rep);
            },
            DriverState::Unbound => {
                let rep = FunctionReport {
                    func: reports[i].func.clone(),
                    state: DriverState::Missing,
                };
                proof {
                    let ghost mk = FunctionReport {
                        func: reports@[i as int].func,
                        state: DriverState::Missing,
                    };
                    assert((out@ + seq![mk]) + spec_after_remove(reports@.skip(i + 1)) =~= out@
                        + (seq![mk] + spec_after_remove(reports@.skip(i + 1))));
                }
                out.push(rep);
            },
            _ => {
                let ghost base = out@;
                let mut j: usize = i;
                proof {
                    assert(base + reports@.subrange(i as int, j as int) =~= base);
                }
                while j < reports.len()
                    invariant
                        i <= j <= reports@.len(),
                        out@ == base + reports@.subrange(i as int, j as int),
                    decreases reports@.len() - j,
                {
                    out.push(duplicate_report(&reports[j]));
                    proof {
                        assert((base + reports@.subrange(i as int, j as int)).push(
                            reports@[j as int],
                        ) =~= base + reports@.subrange(i as int, j + 1));
                    }
                    j = j + 1;
                }
                proof {
                    assert(reports@.subrange(i as int, reports@.len() as int) =~= reports@.skip(
                        i as int,
                    ));
                }
                return out;
            },
        }
        i = i + 1;
    }
    proof {
        assert(reports@.skip(reports@.len() as int) =~= Seq::<FunctionReport>::empty());
        assert(out@ + Seq::<FunctionReport>::empty() =~= out@);
    }
    out
}

/// The first failure among the per-device outcomes of a multi-device power
/// transition, as an index: every device is attempted, partial completion
/// stands, and the earliest error is the one surfaced.
pub fn first_failure(outcomes: &Vec<Option<GraphicsDeviceError>>) -> (r: Option<usize>)
    ensures
        match r {
            Some(i) => i < outcomes@.len() && outcomes@[i as int] is Some && forall|k: int|
                0 <= k < i ==> outcomes@[k] is None,
            None => forall|k: int| 0 <= k < outcomes@.len() ==> outcomes@[k] is None,
        },
{
    let mut i: usize = 0;
    while i < outcomes.len()
        invariant
            i <= outcomes@.len(),
            forall|k: int| 0 <= k < i ==> outcomes@[k] is None,
        decreases outcomes@.len() - i,
    {
        if outcomes[i].is_some() {
            return Some(i);
        }
        i = i + 1;
    }
    None
}

/// A pass over functions that are all missing changes nothing and plans
/// nothing: repeated passes are no-ops.
proof fn lemma_passes_on_missing(rs: Seq<FunctionReport>)
    requires
        forall|k: int| 0 <= k < rs.len() ==> (#[trigger] rs[k]).state is Missing,
    ensures
        spec_unbind_ops(rs) == Seq::<FunctionReport>::empty(),
        spec_unbind_failure(rs) is None,
        spec_remove_ops(rs) == Seq::<FunctionReport>::empty(),
        spec_remove_failure(rs) is None,
        spec_after_remove(rs) == rs,
    decreases rs.len(),
{
    if rs.len() > 0 {
        lemma_passes_on_missing(rs.drop_first());
        assert(seq![rs.first()] + rs.drop_first() =~= rs);
    }
}

/// On a device whose functions hold no bound driver, an unbind pass has
/// nothing to detach and a removal pass removes every present function;
/// neither reports an error, and running both passes a second time on the
/// resulting bus state plans nothing and changes nothing.  Each function
/// keeps its bus address and ends up missing.
pub proof fn lemma_unbind_remove_idempotent(rs: Seq<FunctionReport>)
    requires
        forall|k: int|
            0 <= k < rs.len() ==> ((#[trigger] rs[k]).state is Missing || rs[k].state
                is Unbound),
    ensures
        spec_unbind_ops(rs) == Seq::<FunctionReport>::empty(),
        spec_unbind_failure(rs) is None,
        spec_remove_failure(rs) is None,
        spec_after_remove(rs).len() == rs.len(),
        forall|k: int|
            0 <= k < rs.len() ==> (#[trigger] spec_after_remove(rs)[k]).state is Missing
                && spec_after_remove(rs)[k].func == rs[k].func,
        spec_unbind_ops(spec_after_remove(rs)) == Seq::<FunctionReport>::empty(),
        spec_unbind_failure(spec_after_remove(rs)) is None,
        spec_remove_ops(spec_after_remove(rs)) == Seq::<FunctionReport>::empty(),
        spec_remove_failure(spec_after_remove(rs)) is None,
        spec_after_remove(spec_after_remove(rs)) == spec_after_remove(rs),
    decreases rs.len(),
{
    if rs.len() > 0 {
        lemma_unbind_remove_idempotent(rs.drop_first());
        let head = if rs.first().state is Missing {
            rs.first()
        } else {
            FunctionReport { func: rs.first().func, state: DriverState::Missing }
        };
        assert(spec_after_remove(rs) == seq![head] + spec_after_remove(rs.drop_first()));
        assert(forall|k: int|
            0 <= k < rs.len() ==> (#[trigger] spec_after_remove(rs)[k]).state is Missing
                && spec_after_remove(rs)[k].func == rs[k].func) by {
            assert(spec_after_remove(rs)[0] == head);
            assert(forall|k: int|
                1 <= k < rs.len() ==> #[trigger] spec_after_remove(rs)[k]
                    == spec_after_remove(rs.drop_first())[k - 1] && rs.drop_first()[k - 1]
                    == rs[k]);
        }
    }
    lemma_passes_on_missing(spec_after_remove(rs));
}

/// A removal pass on a device with a still-bound driver is refused: it stops
/// with that function's report — the source of the device-in-use error — and
/// the function is left on the bus exactly as it was, still bound.  Only
/// lookup failures are excluded.
pub proof fn lemma_remove_refused_while_bound(rs: Seq<FunctionReport>)
    requires
        forall|k: int| 0 <= k < rs.len() ==> !((#[trigger] rs[k]).state is LookupFailed),
        exists|k: int| 0 <= k < rs.len() && (#[trigger] rs[k]).state is Bound,
    ensures
        spec_remove_failure(rs) matches Some(rep) && rep.state is Bound,
        spec_after_remove(rs).len() == rs.len(),
        exists|i: int|
            0 <= i < rs.len() && (#[trigger] rs[i]).state is Bound && spec_remove_failure(rs)
                == Some(rs[i]) && spec_after_remove(rs)[i] == rs[i],
    decreases rs.len(),
{
    if rs.first().state is Bound {
        assert(spec_after_remove(rs) == rs);
        assert(rs[0].state is Bound && spec_remove_failure(rs) == Some(rs[0])
            && spec_after_remove(rs)[0] == rs[0]);
    } else {
        let t = rs.drop_first();
        assert(exists|k: int| 0 <= k < t.len() && (#[trigger] t[k]).state is Bound) by {
            let w = choose|k: int| 0 <= k < rs.len() && (#[trigger] rs[k]).state is Bound;
            assert(t[w - 1] == rs[w]);
        }
        lemma_remove_refused_while_bound(t);
        let i = choose|i: int|
            0 <= i < t.len() && (#[trigger] t[i]).state is Bound && spec_remove_failure(t)
                == Some(t[i]) && spec_after_remove(t)[i] == t[i];
        assert(rs[i + 1] == t[i]);
        assert(spec_after_remove(rs)[i + 1] == spec_after_remove(t)[i]);
    }
}

} // verus!
