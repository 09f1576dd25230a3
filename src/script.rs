//! Hooks, script metadata, and the script endpoint.

use crate::error::Error;
use crate::protocol::ScriptType;
use crate::version::VersionReq;
use vstd::prelude::*;

verus! {

/// A hook the host program triggers: a named extension point. The value of
/// the hook type is the hook's input; `Output` is what a script answers.
///
/// The hook types are shared by the host and its scripts.
pub trait Hook {
    /// The name of the hook, its routing key on both sides of every transport.
    const NAME: &'static str;

    /// What a script answers to the hook.
    type Output;
}

/// What a script tells the host about itself at discovery.
#[derive(Debug)]
pub struct ScriptInfo {
    /// The script's name.
    pub name: String,
    /// How the script is run.
    pub script_type: ScriptType,
    /// The names of the hooks the script listens for.
    pub hooks: Vec<String>,
    /// The version the script requires of the host program.
    pub version_requirement: VersionReq,
}

impl ScriptInfo {
    /// The names of the hooks, as texts.
    pub open spec fn hook_names(&self) -> Seq<Seq<char>> {
        self.hooks@.map_values(|h: String| h@)
    }

    /// Whether the hook named `name` is among the hooks; the hooks are a
    /// set for this test, so duplicates do not matter.
    pub open spec fn listens_for(&self, name: Seq<char>) -> bool {
        self.hook_names().contains(name)
    }

    /// Builds the metadata of a script from its static description.
    pub fn new(
        name: &'static str,
        script_type: ScriptType,
        hooks: &'static [&'static str],
        version_requirement: VersionReq,
    ) -> (r: Self)
        ensures
            r.name@ == name@,
            r.script_type == script_type,
            r.hook_names() == hooks@.map_values(|h: &'static str| h@),
            r.version_requirement == version_requirement,
    {
        let mut owned: Vec<String> = Vec::new();
        let mut i: usize = 0;
        while i < hooks.len()
            invariant
                i <= hooks@.len(),
                owned@.map_values(|h: String| h@) =~= hooks@.subrange(0, i as int).map_values(
                    |h: &'static str| h@,
                ),
            decreases hooks@.len() - i,
        {
            let hook: &'static str = hooks[i];
            let text: String = hook.to_owned();
            assert(text@ == hook@);
            assert(hooks@.subrange(0, i + 1) =~= hooks@.subrange(0, i as int).push(hook));
            let ghost before = owned@;
            owned.push(text);
            assert(owned@.map_values(|h: String| h@) =~= before.map_values(|h: String| h@).push(
                hook@,
            ));
            assert(hooks@.subrange(0, i + 1).map_values(|h: &'static str| h@) =~= hooks@.subrange(
                0,
                i as int,
            ).map_values(|h: &'static str| h@).push(hook@));
            i = i + 1;
        }
        assert(hooks@.subrange(0, hooks@.len() as int) =~= hooks@);
        ScriptInfo { name: name.to_owned(), script_type, hooks: owned, version_requirement }
    }

    /// Whether the hook named `name` is among the hooks.
    pub fn listens_for_name(&self, name: &str) -> (r: bool)
        ensures
            r == self.listens_for(name@),
    {
        let key: String = name.to_owned();
        let mut i: usize = 0;
        while i < self.hooks.len()
            invariant
                i <= self.hooks@.len(),
                key@ == name@,
                forall|j: int| 0 <= j < i ==> self.hooks@[j]@ != name@,
            decreases self.hooks@.len() - i,
        {
            if self.hooks[i] == key {
                assert(self.hook_names()[i as int] == name@);
                return true;
            }
            i = i + 1;
        }
        proof {
            if self.listens_for(name@) {
                let j = choose|j: int| 0 <= j < self.hook_names().len() && self.hook_names()[j] == name@;
                assert(self.hooks@[j]@ == name@);
            }
        }
        false
    }
}

/// How the host reaches a script: a running child process, the path of an
/// executable, or a loaded library. The caller's side of the runtime picks
/// the three handle types.
#[derive(Debug)]
pub enum Transport<C, P, L> {
    /// A daemon child process, kept running with piped standard streams.
    Daemon(C),
    /// The path of a one-shot executable, spawned anew for every call.
    OneShot(P),
    /// A loaded dynamic library.
    DynamicLib(L),
}

impl<C, P, L> Transport<C, P, L> {
    /// The transport of a script found as an executable, once it has
    /// answered the greeting: a daemon keeps the child spawned for
    /// discovery, any other script keeps only its path.
    pub fn for_executable(script_type: ScriptType, child: C, path: P) -> (r: Self)
        ensures
            script_type == ScriptType::Daemon ==> r == Transport::<C, P, L>::Daemon(child),
            script_type != ScriptType::Daemon ==> r == Transport::<C, P, L>::OneShot(path),
    {
        if script_type == ScriptType::Daemon {
            Transport::Daemon(child)
        } else {
            Transport::OneShot(path)
        }
    }
}

/// Whether a script takes part in the hook calls of the registry.
#[derive(PartialEq, Eq, Structural, Clone, Copy, Debug)]
enum State {
    /// Receives the hooks it listens for.
    Active,
    /// Is skipped by the registry; a direct call still reaches it.
    Inactive,
}

/// A discovered script: its metadata, whether it is active, and the handle
/// of its transport (a running child, an executable path or a loaded
/// library), which the caller's side of the runtime supplies.
#[derive(Debug)]
pub struct Script<T> {
    metadata: ScriptInfo,
    transport: T,
    state: State,
}

impl<T> Script<T> {
    /// The script's metadata.
    pub closed spec fn info(&self) -> ScriptInfo {
        self.metadata
    }

    /// Whether the script is active.
    pub closed spec fn active(&self) -> bool {
        self.state == State::Active
    }

    /// The script's transport handle.
    pub closed spec fn handle(&self) -> T {
        self.transport
    }

    /// Whether the registry hands the hook named `name` to this script.
    pub open spec fn receives(&self, name: Seq<char>) -> bool {
        self.active() && self.info().listens_for(name)
    }

    /// A new, active script.
    pub(crate) fn new(metadata: ScriptInfo, transport: T) -> (r: Self)
        ensures
            r.info() == metadata,
            r.handle() == transport,
            r.active(),
    {
        Script { metadata, transport, state: State::Active }
    }

    /// Returns the script metadata.
    pub fn metadata(&self) -> (r: &ScriptInfo)
        ensures
            *r == self.info(),
    {
        &self.metadata
    }

    /// Activates the script: the registry hands it the hooks it listens for.
    pub fn activate(&mut self)
        ensures
            final(self).active(),
            final(self).info() == old(self).info(),
            final(self).handle() == old(self).handle(),
    {
        self.state = State::Active;
    }

    /// Deactivates the script: the registry skips it.
    pub fn deactivate(&mut self)
        ensures
            !final(self).active(),
            final(self).info() == old(self).info(),
            final(self).handle() == old(self).handle(),
    {
        self.state = State::Inactive;
    }

    /// Whether the script is active.
    pub fn is_active(&self) -> (r: bool)
        ensures
            r == self.active(),
    {
        self.state == State::Active
    }

    /// Whether the script listens for the hook `H`.
    pub fn is_listening_for<H: Hook>(&self) -> (r: bool)
        ensures
            r == self.info().listens_for(H::NAME@),
    {
        self.metadata.listens_for_name(H::NAME)
    }

    /// Whether the registry hands the hook named `name` to this script: it
    /// is active and listens for the hook.
    pub fn receives_hook(&self, name: &str) -> (r: bool)
        ensures
            r == self.receives(name@),
    {
        self.is_active() && self.metadata.listens_for_name(name)
    }

    /// Decides a direct call of the hook `H`, which disregards whether the
    /// script is active: it goes ahead when the script listens for `H`.
    pub fn check_listening<H: Hook>(&self) -> (r: Result<(), Error>)
        ensures
            r is Ok <==> self.info().listens_for(H::NAME@),
            r is Err ==> r matches Err(Error::ScriptIsNotListeningForHook),
    {
        if self.is_listening_for::<H>() {
            Ok(())
        } else {
            Err(Error::ScriptIsNotListeningForHook)
        }
    }

    /// The transport handle.
    pub fn transport(&self) -> (r: &T)
        ensures
            *r == self.handle(),
    {
        &self.transport
    }

    /// The transport handle, to make a call through it; the metadata and the
    /// state stay as they are.
    pub fn transport_mut(&mut self) -> (r: &mut T)
        ensures
            *r == old(self).handle(),
            final(self).handle() == *final(r),
            final(self).info() == old(self).info(),
            final(self).active() == old(self).active(),
    {
        &mut self.transport
    }
}

} // verus!
