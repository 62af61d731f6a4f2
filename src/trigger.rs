use vstd::prelude::*;

verus! {

/// The time at which a quiet period of `window` that starts at `now` ends.
/// Times are milliseconds on a monotonic clock; the end of the clock is the
/// latest deadline there is.
pub open spec fn deadline_after(now: u64, window: u64) -> u64 {
    if now + window <= u64::MAX {
        (now + window) as u64
    } else {
        u64::MAX
    }
}

/// Turns a stream of change notifications into rebuild signals: a signal is
/// due once `window` has passed since the latest change with no change in
/// between. Every change restarts the wait.
#[derive(Debug)]
pub struct RebuildTrigger {
    window: u64,
    deadline: Option<u64>,
}

impl RebuildTrigger {
    /// The length of the quiet period, in milliseconds.
    pub closed spec fn window(&self) -> u64 {
        self.window
    }

    /// When the pending signal is due, if changes are waiting to settle.
    pub closed spec fn deadline(&self) -> Option<u64> {
        self.deadline
    }

    pub fn new(window: u64) -> (r: Self)
        ensures
            r.window() == window,
            r.deadline() is None,
    {
        RebuildTrigger { window, deadline: None }
    }

    pub fn window_ms(&self) -> (r: u64)
        ensures
            r == self.window(),
    {
        self.window
    }

    /// When the next signal is due; `None` while nothing is waiting to settle.
    pub fn next_deadline(&self) -> (r: Option<u64>)
        ensures
            r == self.deadline(),
    {
        self.deadline
    }

    /// Records a change seen at `now`, which starts or restarts the wait.
    pub fn on_change(&mut self, now: u64)
        ensures
            final(self).window() == old(self).window(),
            final(self).deadline() == Some(deadline_after(now, old(self).window())),
            final(self).deadline() == trigger_step(
                old(self).window(),
                old(self).deadline(),
                TriggerInput::Change(now),
            ).0,
    {
        let deadline = if now <= u64::MAX - self.window {
            now + self.window
        } else {
            u64::MAX
        };
        self.deadline = Some(deadline);
    }

    /// Checks the clock at `now`; returns true, once, when the changes have
    /// settled and a rebuild is due.
    pub fn poll(&mut self, now: u64) -> (fire: bool)
        ensures
            fire == (old(self).deadline() matches Some(d) && d <= now),
            final(self).window() == old(self).window(),
            final(self).deadline() == if fire {
                None
            } else {
                old(self).deadline()
            },
            (final(self).deadline(), fire) == trigger_step(
                old(self).window(),
                old(self).deadline(),
                TriggerInput::Poll(now),
            ),
    {
        match self.deadline {
            Some(d) => {
                if d <= now {
                    self.deadline = None;
                    true
                } else {
                    false
                }
            },
            None => false,
        }
    }
}

/// One input to a trigger, for reasoning about runs of them: a change seen at
/// a time, or a look at the clock.
pub enum TriggerInput {
    Change(u64),
    Poll(u64),
}

pub open spec fn input_time(input: TriggerInput) -> u64 {
    match input {
        TriggerInput::Change(t) => t,
        TriggerInput::Poll(t) => t,
    }
}

/// The deadline after `input`, and whether it fired: what `on_change` and
/// `poll` above do.
pub open spec fn trigger_step(window: u64, deadline: Option<u64>, input: TriggerInput) -> (Option<u64>, bool) {
    match input {
        TriggerInput::Change(t) => (Some(deadline_after(t, window)), false),
        TriggerInput::Poll(t) => match deadline {
            Some(d) => if d <= t {
                (None, true)
            } else {
                (deadline, false)
            },
            None => (None, false),
        },
    }
}

/// The deadline after `inputs`, fed in order to a new trigger.
pub open spec fn deadline_after_inputs(window: u64, inputs: Seq<TriggerInput>) -> Option<u64>
    decreases inputs.len(),
{
    if inputs.len() == 0 {
        None
    } else {
        trigger_step(window, deadline_after_inputs(window, inputs.drop_last()), inputs.last()).0
    }
}

/// Whether the input at position `k` of `inputs` yields a rebuild signal.
pub open spec fn fires_at(window: u64, inputs: Seq<TriggerInput>, k: int) -> bool {
    trigger_step(window, deadline_after_inputs(window, inputs.take(k)), inputs[k]).1
}

pub open spec fn times_ascending(inputs: Seq<TriggerInput>) -> bool {
    forall|i: int, j: int|
        0 <= i <= j < inputs.len() ==> input_time(#[trigger] inputs[i]) <= input_time(
            #[trigger] inputs[j],
        )
}

/// Every two changes in `inputs` lie less than `window` apart.
pub open spec fn changes_within(inputs: Seq<TriggerInput>, window: u64) -> bool {
    forall|i: int, j: int|
        0 <= i < inputs.len() && 0 <= j < inputs.len() && #[trigger] inputs[i] is Change
            && #[trigger] inputs[j] is Change ==> input_time(inputs[j]) < input_time(inputs[i])
            + window
}

proof fn lemma_deadline_step(window: u64, inputs: Seq<TriggerInput>, n: int)
    requires
        0 <= n < inputs.len(),
    ensures
        deadline_after_inputs(window, inputs.take(n + 1)) == trigger_step(
            window,
            deadline_after_inputs(window, inputs.take(n)),
            inputs[n],
        ).0,
{
    assert(inputs.take(n + 1).drop_last() =~= inputs.take(n));
    assert(inputs.take(n + 1).last() == inputs[n]);
}

/// The deadline along a burst whose last change stands at `l`.
proof fn lemma_burst_deadline(window: u64, inputs: Seq<TriggerInput>, l: int, n: int)
    requires
        times_ascending(inputs),
        changes_within(inputs, window),
        0 <= l < inputs.len(),
        inputs[l] is Change,
        forall|i: int| l < i < inputs.len() ==> #[trigger] inputs[i] is Poll,
        input_time(inputs[l]) + window <= u64::MAX,
        0 <= n <= inputs.len(),
    ensures
        n <= l ==> (deadline_after_inputs(window, inputs.take(n)) matches Some(d) ==> input_time(
            inputs[l],
        ) < d),
        n > l ==> deadline_after_inputs(window, inputs.take(n)) == if n == l + 1 || input_time(
            inputs[n - 1],
        ) < input_time(inputs[l]) + window {
            Some((input_time(inputs[l]) + window) as u64)
        } else {
            None::<u64>
        },
    decreases n,
{
    if n > 0 {
        lemma_burst_deadline(window, inputs, l, n - 1);
        lemma_deadline_step(window, inputs, n - 1);
        let dl = input_time(inputs[l]) + window;
        if n - 1 < l {
            if inputs[n - 1] is Change {
                assert(input_time(inputs[n - 1]) <= input_time(inputs[l]));
                assert(input_time(inputs[l]) < input_time(inputs[n - 1]) + window);
            }
        } else if n - 1 > l {
            assert(inputs[n - 1] is Poll);
            if n - 1 > l + 1 {
                assert(input_time(inputs[n - 2]) <= input_time(inputs[n - 1]));
            }
        }
    } else {
        assert(inputs.take(0).len() == 0);
    }
}

/// A burst of changes that all lie less than the quiet period apart, fed to
/// a new trigger with looks at the clock in between, yields exactly one
/// rebuild signal, and not before the quiet period has passed since the last
/// change: the first look at the clock at or after that moment fires, and no
/// other input does.
pub proof fn lemma_burst_yields_one_signal(window: u64, inputs: Seq<TriggerInput>, l: int)
    requires
        times_ascending(inputs),
        changes_within(inputs, window),
        0 <= l < inputs.len(),
        inputs[l] is Change,
        forall|i: int| l < i < inputs.len() ==> #[trigger] inputs[i] is Poll,
        input_time(inputs[l]) + window <= u64::MAX,
    ensures
        forall|k: int|
            0 <= k < inputs.len() ==> (#[trigger] fires_at(window, inputs, k) <==> (l < k
                && input_time(inputs[l]) + window <= input_time(inputs[k]) && (k == l + 1
                || input_time(inputs[k - 1]) < input_time(inputs[l]) + window))),
        forall|k1: int, k2: int|
            0 <= k1 < inputs.len() && 0 <= k2 < inputs.len() && #[trigger] fires_at(
                window,
                inputs,
                k1,
            ) && #[trigger] fires_at(window, inputs, k2) ==> k1 == k2,
        (exists|k: int|
            l < k < inputs.len() && input_time(inputs[l]) + window <= input_time(
                #[trigger] inputs[k],
            )) ==> exists|k: int| 0 <= k < inputs.len() && #[trigger] fires_at(window, inputs, k),
{
    let dl = input_time(inputs[l]) + window;
    assert forall|k: int| 0 <= k < inputs.len() implies (#[trigger] fires_at(window, inputs, k) <==> (
    l < k && dl <= input_time(inputs[k]) && (k == l + 1 || input_time(inputs[k - 1]) < dl))) by {
        lemma_burst_deadline(window, inputs, l, k);
        if k < l {
            assert(input_time(inputs[k]) <= input_time(inputs[l]));
        }
    }
    assert forall|k1: int, k2: int|
        0 <= k1 < inputs.len() && 0 <= k2 < inputs.len() && #[trigger] fires_at(window, inputs, k1)
            && #[trigger] fires_at(window, inputs, k2) implies k1 == k2 by {
        if k1 < k2 {
            assert(input_time(inputs[k1]) <= input_time(inputs[k2 - 1]));
        } else if k2 < k1 {
            assert(input_time(inputs[k2]) <= input_time(inputs[k1 - 1]));
        }
    }
    if exists|k: int| l < k < inputs.len() && dl <= input_time(#[trigger] inputs[k]) {
        let k = choose|k: int| l < k < inputs.len() && dl <= input_time(#[trigger] inputs[k]);
        let first = lemma_first_late_poll(window, inputs, l, k);
        assert(fires_at(window, inputs, first));
    }
}

/// Walks back from a late look at the clock to the first one after `l`.
proof fn lemma_first_late_poll(window: u64, inputs: Seq<TriggerInput>, l: int, k: int) -> (first: int)
    requires
        0 <= l < k < inputs.len(),
        input_time(inputs[l]) + window <= input_time(inputs[k]),
    ensures
        l < first <= k,
        input_time(inputs[l]) + window <= input_time(inputs[first]),
        first == l + 1 || input_time(inputs[first - 1]) < input_time(inputs[l]) + window,
    decreases k,
{
    if k == l + 1 || input_time(inputs[k - 1]) < input_time(inputs[l]) + window {
        k
    } else {
        lemma_first_late_poll(window, inputs, l, k - 1)
    }
}

} // verus!
