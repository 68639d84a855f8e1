use vstd::prelude::*;

use crate::events::{ChangeValue, FileData, FileMeta, FormError, InputEventData};
use crate::events::{change_files, input_text, select_text};
use crate::store::Store;
use crate::tasks::{live, prune_tasks, schedule_tasks, task_for, ReadTask};
use crate::value::{opt_eq_value, opt_eqv, FormValue};

verus! {

/// The properties a parent supplies to the controller: the optional default
/// value and the auto-reset policy. The parent's on-submit callback and its
/// view function act outside the model: what reaches the former is the
/// `submitted` field of `Effects`, and what the latter is handed are the
/// binder operations of `Model`.
pub struct Props<T> {
    /// Initial and reset value; absent means the store keeps its value.
    pub default: Option<T>,
    /// Whether the form is cleared and the state reset after each submit.
    pub auto_reset: bool,
}

/// A submit event, reduced to what the lifecycle reads off it: whether the
/// event still carries a target element for the reset dispatch.
pub struct SubmitEvent {
    pub has_target: bool,
}

/// A message the controller processes.
pub enum Msg {
    /// Files chosen on a file input, to be scheduled for reading.
    Files(Vec<FileMeta>),
    /// The form was submitted.
    Submit(SubmitEvent),
}

/// What one `update` step asks of the host: the snapshot to emit through
/// the parent's on-submit callback (emitted strictly before any reset), the
/// reset event to dispatch on the submit event's target, the number of file
/// reads to begin, and whether to re-render.
pub struct Effects<T> {
    /// State snapshot for the parent's on-submit callback, taken before any
    /// reset.
    pub submitted: Option<T>,
    /// Whether a reset event is dispatched so native controls clear.
    pub reset_event: bool,
    /// How many file reads were newly scheduled.
    pub scheduled: usize,
    /// Whether the step itself asks for a re-render.
    pub render: bool,
}

/// The form controller: the store cell it binds, the supplied properties,
/// the value its reset callback writes, the set of live file-read tasks and
/// whether the form node reference is attached to a live element.
///
/// Its methods cover the component lifecycle (`create`, `change`, `update`)
/// and the callbacks the binder hands to the view (`state`, `set`,
/// `set_with`, `set_text`, `set_select`, `set_file`, `submit`): firing such
/// a callback once is one call of the method.
pub struct Model<T: FormValue> {
    props: Props<T>,
    store: Store<T>,
    reset_value: T,
    tasks: Vec<ReadTask>,
    form_attached: bool,
    resets: Ghost<nat>,
}

impl<T: FormValue> Model<T> {
    /// The value the bound store cell holds.
    pub closed spec fn state_spec(&self) -> T {
        self.store@
    }

    /// The configured default.
    pub closed spec fn default_spec(&self) -> Option<T> {
        self.props.default
    }

    /// The configured auto-reset policy.
    pub closed spec fn auto_reset_spec(&self) -> bool {
        self.props.auto_reset
    }

    /// The value the reset callback writes.
    pub closed spec fn reset_value_spec(&self) -> T {
        self.reset_value
    }

    /// The live-task set.
    pub closed spec fn tasks_spec(&self) -> Seq<ReadTask> {
        self.tasks@
    }

    /// Whether the form node reference is attached to a live element.
    pub closed spec fn attached_spec(&self) -> bool {
        self.form_attached
    }

    /// How many times the reset callback has fired.
    pub closed spec fn resets_spec(&self) -> nat {
        self.resets@
    }

    /// The reset callback always matches the currently effective default:
    /// the configured value when one is present, the type's default when
    /// none is.
    pub open spec fn wf(&self) -> bool {
        match self.default_spec() {
            Some(d) => self.reset_value_spec().eqv(&d),
            None => self.reset_value_spec().is_default(),
        }
    }

    /// The policy state a store mutation leaves alone.
    pub open spec fn policy_unchanged(pre: Self, post: Self) -> bool {
        &&& post.default_spec() == pre.default_spec()
        &&& post.auto_reset_spec() == pre.auto_reset_spec()
        &&& post.reset_value_spec() == pre.reset_value_spec()
        &&& post.attached_spec() == pre.attached_spec()
        &&& post.resets_spec() == pre.resets_spec()
    }

    /// Mount the controller over a store cell. With a default configured the
    /// store is eagerly reduced to it; without one the store keeps its value.
    pub fn create(props: Props<T>, store: Store<T>) -> (m: Self)
        ensures
            m.wf(),
            m.default_spec() == props.default,
            m.auto_reset_spec() == props.auto_reset,
            m.tasks_spec() == Seq::<ReadTask>::empty(),
            !m.attached_spec(),
            props.default matches Some(d) ==> m.state_spec() == d && m.reset_value_spec() == d
                && m.resets_spec() == 1,
            props.default is None ==> m.state_spec() == store@ && m.reset_value_spec().is_default()
                && m.resets_spec() == 0,
    {
        let mut m = Model {
            props,
            store,
            reset_value: T::default_value(),
            tasks: Vec::new(),
            form_attached: false,
            resets: Ghost(0nat),
        };
        m.update_default();
        m
    }

    /// Rebuild the reset callback from the current default, and fire it once
    /// when a default is configured.
    fn update_default(&mut self)
        ensures
            final(self).wf(),
            final(self).default_spec() == old(self).default_spec(),
            final(self).auto_reset_spec() == old(self).auto_reset_spec(),
            final(self).tasks_spec() == old(self).tasks_spec(),
            final(self).attached_spec() == old(self).attached_spec(),
            old(self).default_spec() matches Some(d) ==> final(self).reset_value_spec() == d
                && final(self).state_spec() == d && final(self).resets_spec() == old(self).resets_spec() + 1,
            old(self).default_spec() is None ==> final(self).reset_value_spec().is_default()
                && final(self).state_spec() == old(self).state_spec() && final(self).resets_spec()
                == old(self).resets_spec(),
    {
        let rv = match &self.props.default {
            Some(d) => d.clone_value(),
            None => T::default_value(),
        };
        self.reset_value = rv;
        if self.props.default.is_some() {
            self.reset();
        }
        proof {
            T::eqv_laws(&self.reset_value, &self.reset_value, &self.reset_value);
        }
    }

    /// Fire the reset callback: overwrite the store with the effective
    /// default.
    pub fn reset(&mut self)
        ensures
            final(self).state_spec() == old(self).reset_value_spec(),
            final(self).reset_value_spec() == old(self).reset_value_spec(),
            final(self).default_spec() == old(self).default_spec(),
            final(self).auto_reset_spec() == old(self).auto_reset_spec(),
            final(self).tasks_spec() == old(self).tasks_spec(),
            final(self).attached_spec() == old(self).attached_spec(),
            final(self).resets_spec() == old(self).resets_spec() + 1,
            old(self).wf() ==> final(self).wf(),
    {
        let v = self.reset_value.clone_value();
        self.store.replace(v);
        self.resets = Ghost(self.resets@ + 1);
    }

    /// Receive new properties. The new default is compared to the old one by
    /// the type's equality: when it changed the reset callback is rebuilt
    /// and, if the new default is present, applied to the store exactly
    /// once; when it is equal nothing is reset.
    pub fn change(&mut self, props: Props<T>) -> (render: bool)
        requires
            old(self).wf(),
        ensures
            render == true,
            final(self).wf(),
            final(self).default_spec() == props.default,
            final(self).auto_reset_spec() == props.auto_reset,
            final(self).tasks_spec() == old(self).tasks_spec(),
            final(self).attached_spec() == old(self).attached_spec(),
            opt_eqv(props.default, old(self).default_spec()) ==> final(self).state_spec() == old(self).state_spec() && final(self).reset_value_spec() == old(self).reset_value_spec()
                && final(self).resets_spec() == old(self).resets_spec(),
            !opt_eqv(props.default, old(self).default_spec()) ==> (props.default matches Some(d)
                ==> final(self).state_spec() == d && final(self).reset_value_spec() == d
                && final(self).resets_spec() == old(self).resets_spec() + 1),
            !opt_eqv(props.default, old(self).default_spec()) && props.default is None ==> final(self).state_spec() == old(self).state_spec() && final(self).resets_spec() == old(self).resets_spec(),
    {
        let same = opt_eq_value(&props.default, &self.props.default);
        self.props = props;
        if !same {
            self.update_default();
        } else {
            proof {
                match (old(self).default_spec(), self.default_spec()) {
                    (Some(x), Some(y)) => {
                        T::eqv_laws(&x, &y, &x);
                        T::eqv_laws(&old(self).reset_value_spec(), &x, &y);
                    },
                    _ => {},
                }
            }
        }
        true
    }

    /// Process one message.
    ///
    /// On submit, the returned snapshot is the state before any reset, so
    /// the parent's on-submit callback observes the pre-reset state; with
    /// auto-reset configured the store is then reduced to the effective
    /// default and a reset event is dispatched when the event still has a
    /// target. On files, the live-task set is pruned of inactive tasks and
    /// a read is scheduled for every listed file. Neither path re-renders.
    pub fn update(&mut self, msg: Msg) -> (out: Effects<T>)
        requires
            old(self).wf(),
        ensures
            final(self).wf(),
            out.render == false,
            final(self).default_spec() == old(self).default_spec(),
            final(self).auto_reset_spec() == old(self).auto_reset_spec(),
            final(self).reset_value_spec() == old(self).reset_value_spec(),
            final(self).attached_spec() == old(self).attached_spec(),
            msg matches Msg::Submit(e) ==> {
                &&& out.submitted == Some(old(self).state_spec())
                &&& out.scheduled == 0
                &&& final(self).tasks_spec() == old(self).tasks_spec()
                &&& old(self).auto_reset_spec() ==> final(self).state_spec() == old(self).reset_value_spec() && final(self).resets_spec() == old(self).resets_spec() + 1
                    && out.reset_event == e.has_target
                &&& !old(self).auto_reset_spec() ==> final(self).state_spec() == old(self).state_spec() && final(self).resets_spec() == old(self).resets_spec()
                    && out.reset_event == false
                &&& old(self).auto_reset_spec() ==> (old(self).default_spec() matches Some(d)
                    ==> final(self).state_spec().eqv(&d))
            },
            msg matches Msg::Files(fs) ==> {
                &&& out.submitted is None
                &&& out.reset_event == false
                &&& out.scheduled == fs@.len()
                &&& final(self).state_spec() == old(self).state_spec()
                &&& final(self).resets_spec() == old(self).resets_spec()
                &&& final(self).tasks_spec() == old(self).tasks_spec().filter(
                    |t: ReadTask| live(t),
                ) + fs@.map_values(|f: FileMeta| task_for(f))
            },
    {
        match msg {
            Msg::Submit(e) => {
                let snapshot = self.store.state().clone_value();
                let mut reset_event = false;
                if self.props.auto_reset {
                    reset_event = e.has_target;
                    self.reset();
                }
                Effects { submitted: Some(snapshot), reset_event, scheduled: 0, render: false }
            },
            Msg::Files(files) => {
                let n = files.len();
                prune_tasks(&mut self.tasks);
                schedule_tasks(&mut self.tasks, files);
                Effects { submitted: None, reset_event: false, scheduled: n, render: false }
            },
        }
    }

    /// Deliver one completed read: the record is reduced into the store by
    /// the reducer bound at `set_file`, and the task stops being active.
    /// Completions may arrive in any order.
    pub fn file_loaded<F: FnOnce(T, FileData) -> T>(&mut self, i: usize, data: FileData, f: F)
        requires
            i < old(self).tasks_spec().len(),
            old(self).tasks_spec()[i as int].active,
            call_requires(f, (old(self).state_spec(), data)),
        ensures
            call_ensures(f, (old(self).state_spec(), data), final(self).state_spec()),
            final(self).tasks_spec() == old(self).tasks_spec().update(
                i as int,
                ReadTask { name: old(self).tasks_spec()[i as int].name, active: false },
            ),
            Self::policy_unchanged(*old(self), *final(self)),
            old(self).wf() ==> final(self).wf(),
    {
        self.store.reduce_once_with(f, data);
        let name = self.tasks[i].name.clone();
        self.tasks[i] = ReadTask { name, active: false };
    }

    /// Record that the rendered form element is attached to the node
    /// reference.
    pub fn bind_form(&mut self)
        ensures
            final(self).attached_spec(),
            final(self).state_spec() == old(self).state_spec(),
            final(self).default_spec() == old(self).default_spec(),
            final(self).auto_reset_spec() == old(self).auto_reset_spec(),
            final(self).reset_value_spec() == old(self).reset_value_spec(),
            final(self).tasks_spec() == old(self).tasks_spec(),
            final(self).resets_spec() == old(self).resets_spec(),
            old(self).wf() ==> final(self).wf(),
    {
        self.form_attached = true;
    }

    /// Borrow the current state, as the binder's render-time read; never a
    /// cached copy.
    pub fn state(&self) -> (r: &T)
        ensures
            *r == self.state_spec(),
    {
        self.store.state()
    }

    /// Fire a callback built by `set`: the reducer runs against the current
    /// state; the event payload is ignored.
    pub fn set<F: FnOnce(T) -> T>(&mut self, f: F)
        requires
            call_requires(f, (old(self).state_spec(),)),
        ensures
            call_ensures(f, (old(self).state_spec(),), final(self).state_spec()),
            final(self).tasks_spec() == old(self).tasks_spec(),
            Self::policy_unchanged(*old(self), *final(self)),
            old(self).wf() ==> final(self).wf(),
    {
        self.store.reduce_once(f);
    }

    /// Fire a callback built by `set_with`: the reducer consumes the raw
    /// event payload.
    pub fn set_with<E, F: FnOnce(T, E) -> T>(&mut self, f: F, e: E)
        requires
            call_requires(f, (old(self).state_spec(), e)),
        ensures
            call_ensures(f, (old(self).state_spec(), e), final(self).state_spec()),
            final(self).tasks_spec() == old(self).tasks_spec(),
            Self::policy_unchanged(*old(self), *final(self)),
            old(self).wf() ==> final(self).wf(),
    {
        self.store.reduce_once_with(f, e);
    }

    /// Fire a callback built by `set_text`: the reducer receives exactly the
    /// event's text value, uninterpreted.
    pub fn set_text<F: FnOnce(T, String) -> T>(&mut self, f: F, e: InputEventData)
        requires
            call_requires(f, (old(self).state_spec(), e.value)),
        ensures
            call_ensures(f, (old(self).state_spec(), e.value), final(self).state_spec()),
            final(self).tasks_spec() == old(self).tasks_spec(),
            Self::policy_unchanged(*old(self), *final(self)),
            old(self).wf() ==> final(self).wf(),
    {
        let v = input_text(e);
        self.store.reduce_once_with(f, v);
    }

    /// Fire a callback built by `set_select`: from a select element the
    /// reducer receives the selected value; from any other control the call
    /// is programmer misuse, the store stays untouched and the misuse is
    /// surfaced.
    pub fn set_select<F: FnOnce(T, String) -> T>(&mut self, f: F, e: ChangeValue) -> (r: Result<
        (),
        FormError,
    >)
        requires
            e matches ChangeValue::Select(v) ==> call_requires(f, (old(self).state_spec(), v)),
        ensures
            e matches ChangeValue::Select(v) ==> r is Ok && call_ensures(
                f,
                (old(self).state_spec(), v),
                final(self).state_spec(),
            ),
            !(e is Select) ==> r == Err::<(), FormError>(FormError::SelectRequired) && *final(self)
                == *old(self),
            final(self).tasks_spec() == old(self).tasks_spec(),
            Self::policy_unchanged(*old(self), *final(self)),
            old(self).wf() ==> final(self).wf(),
    {
        match select_text(e) {
            Ok(v) => {
                self.store.reduce_once_with(f, v);
                Ok(())
            },
            Err(err) => Err(err),
        }
    }

    /// Fire a callback built by `set_file`: the files the event lists become
    /// the message that schedules their reads; an event from another control
    /// lists no files.
    pub fn set_file(&self, e: ChangeValue) -> (m: Msg)
        ensures
            e matches ChangeValue::Files(fs) ==> m == Msg::Files(fs),
            !(e is Files) ==> (m matches Msg::Files(fs) && fs@ == Seq::<FileMeta>::empty()),
    {
        Msg::Files(change_files(e))
    }

    /// Fire a callback built by `submit`: a submit event is dispatched on
    /// the form element exactly when the node reference is attached to a
    /// live element; otherwise the call is a benign no-op.
    pub fn submit(&self) -> (dispatched: bool)
        ensures
            dispatched == self.attached_spec(),
    {
        self.form_attached
    }

    /// How many tasks the live-task set holds, pruned or not.
    pub fn task_count(&self) -> (n: usize)
        ensures
            n == self.tasks_spec().len(),
    {
        self.tasks.len()
    }
}

/// Read coherence: a mutation applied through a binder is exactly what a
/// binder built in the next render reads. When the reducer determines its
/// result, the next `state` returns that result and nothing stale.
pub proof fn lemma_read_coherence<T: FormValue, F: FnOnce(T, String) -> T>(
    pre: Model<T>,
    post: Model<T>,
    f: F,
    text: String,
    expected: T,
)
    requires
        call_ensures(f, (pre.state_spec(), text), post.state_spec()),
        forall|r: T| call_ensures(f, (pre.state_spec(), text), r) ==> r == expected,
    ensures
        post.state_spec() == expected,
{
}

} // verus!
