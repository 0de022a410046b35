//! Widgets whose state can be saved and restored: the key under which a
//! widget's state is kept, the trait a widget implements, and the envelope
//! that tags saved state with its schema version.

use vstd::prelude::*;

verus! {

/// Calls `String::leak` of the standard library, which gives up the
/// string's buffer and hands its characters out for the rest of the program.
#[verifier::external_body]
pub(crate) fn leak_string(s: String) -> (r: &'static str)
    ensures
        r@ == s@,
{
    s.leak()
}

/// Identifies the saved state of one widget instance: the type of the
/// widget and an id that is unique among the widgets of a tree.
#[derive(Clone, Debug, Eq, PartialEq, Hash)]
pub struct StateKey {
    /// The widget type, such as `ScrollView`.
    pub widget_type: &'static str,
    /// The id of the instance.
    pub instance_id: String,
}

/// The segments of a path with `/` between them.
pub open spec fn joined(path: Seq<&str>, n: int) -> Seq<char>
    decreases n,
{
    if n <= 0 {
        Seq::empty()
    } else if n == 1 {
        path[0]@
    } else {
        joined(path, n - 1) + seq!['/'] + path[n - 1]@
    }
}

impl StateKey {
    /// The key as one string: widget type, `::`, instance id.
    pub open spec fn spec_canonical(&self) -> Seq<char> {
        self.widget_type@ + "::"@ + self.instance_id@
    }

    /// The key of instance `id` of a widget type.
    pub fn new(widget_type: &'static str, id: &str) -> (k: StateKey)
        ensures
            k.widget_type@ == widget_type@,
            k.instance_id@ == id@,
    {
        StateKey { widget_type, instance_id: id.to_owned() }
    }

    /// The key for a path of widget-tree segments: the segments joined by
    /// `/` are the instance id, the last segment is the widget type. The
    /// path must hold a segment.
    pub fn from_path(path: &[&str]) -> (k: StateKey)
        requires
            path@.len() > 0,
        ensures
            k.widget_type@ == path@.last()@,
            k.instance_id@ == joined(path@, path@.len() as int),
    {
        let n = path.len();
        let widget_type = leak_string(path[n - 1].to_owned());
        let mut instance_id = path[0].to_owned();
        let mut i: usize = 1;
        while i < n
            invariant
                n == path@.len(),
                1 <= i <= n,
                instance_id@ == joined(path@, i as int),
            decreases n - i,
        {
            instance_id.append("/");
            instance_id.append(path[i]);
            proof {
                reveal_strlit("/");
                assert("/"@ =~= seq!['/']);
            }
            i += 1;
        }
        StateKey { widget_type, instance_id }
    }

    /// The key as one string: widget type, `::`, instance id.
    pub fn canonical(&self) -> (s: String)
        ensures
            s@ == self.spec_canonical(),
    {
        let mut s = self.widget_type.to_owned();
        s.append("::");
        s.append(self.instance_id.as_str());
        s
    }

    /// The key as one string, as `canonical` gives it.
    pub fn to_string(&self) -> (s: String)
        ensures
            s@ == self.spec_canonical(),
    {
        self.canonical()
    }
}

/// A widget whose user-facing state can be saved and restored.
pub trait Stateful: Sized {
    /// What is saved.
    type State: Default;

    /// The key of this instance. Two instances must not share a key.
    fn state_key(&self) -> StateKey;

    /// The state as it is now.
    fn save_state(&self) -> Self::State;

    /// Takes saved state back, holding its values to what is valid now.
    fn restore_state(&mut self, state: Self::State);

    /// The version of the saved form. It changes when saved state of an
    /// older form can no longer be read.
    fn state_version() -> u32 {
        1
    }
}

/// Saved state with the version of its form.
#[derive(Clone, Debug)]
pub struct VersionedState<S> {
    /// The version of the form in which `data` was saved.
    pub version: u32,
    /// The saved state.
    pub data: S,
}

impl<S> VersionedState<S> {
    /// State tagged with a version.
    pub fn new(version: u32, data: S) -> (v: VersionedState<S>)
        ensures
            v.version == version,
            v.data == data,
    {
        VersionedState { version, data }
    }

    /// The state, where it was saved in the form `current_version`.
    pub fn unpack_as(self, current_version: u32) -> (r: Option<S>)
        ensures
            r == if self.version == current_version {
                Some(self.data)
            } else {
                None
            },
    {
        if self.version == current_version {
            Some(self.data)
        } else {
            None
        }
    }

    /// The state, where it was saved in the form `current_version`; where
    /// it was not, the given fallback.
    pub fn unpack_as_or(self, current_version: u32, fallback: S) -> (r: S)
        ensures
            r == if self.version == current_version {
                self.data
            } else {
                fallback
            },
    {
        if self.version == current_version {
            self.data
        } else {
            fallback
        }
    }

    /// The state of a widget as it is now, tagged with the widget's version.
    pub fn pack<W: Stateful<State = S>>(widget: &W) -> (v: VersionedState<S>)
        ensures
            call_ensures(W::state_version, (), v.version),
            call_ensures(W::save_state, (widget,), v.data),
    {
        VersionedState { version: W::state_version(), data: widget.save_state() }
    }

    /// The state, where its version is the one the widget has now.
    pub fn unpack<W: Stateful<State = S>>(self) -> (r: Option<S>)
        ensures
            exists|current: u32|
                call_ensures(W::state_version, (), current) && r == if self.version == current {
                    Some(self.data)
                } else {
                    None
                },
    {
        let current = W::state_version();
        self.unpack_as(current)
    }

    /// The state, where its version is the one the widget has now; where it
    /// is not, the default state.
    pub fn unpack_or_default<W: Stateful<State = S>>(self) -> (r: S) where S: Default
        ensures
            exists|current: u32|
                call_ensures(W::state_version, (), current) && if self.version == current {
                    r == self.data
                } else {
                    call_ensures(S::default, (), r)
                },
    {
        let current = W::state_version();
        if self.version == current {
            self.data
        } else {
            S::default()
        }
    }
}

impl<S: Default> Default for VersionedState<S> {
    fn default() -> (v: VersionedState<S>)
        ensures
            v.version == 1,
            call_ensures(S::default, (), v.data),
    {
        VersionedState { version: 1, data: S::default() }
    }
}

} // verus!
