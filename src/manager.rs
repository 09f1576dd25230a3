//! The script registry: the version gate that scripts pass to enter it, and the
//! selection of the scripts that a triggered hook reaches.

use crate::error::Error;
use crate::script::{Script, ScriptInfo};
use crate::version::{requirement_matches, Version};
use vstd::prelude::*;

verus! {

/// The indices, in registry order and from `from` on, of the scripts that
/// receive the hook named `name`: those that are active and listen for it.
pub open spec fn fanout<T>(scripts: Seq<Script<T>>, name: Seq<char>, from: int) -> Seq<int>
    decreases scripts.len() - from,
{
    if from >= scripts.len() {
        Seq::empty()
    } else if scripts[from].receives(name) {
        seq![from] + fanout(scripts, name, from + 1)
    } else {
        fanout(scripts, name, from + 1)
    }
}

/// The two ways of discovering scripts in a directory.
#[derive(PartialEq, Eq, Structural, Clone, Copy, Debug)]
pub enum Discovery {
    /// Executables, run as child processes.
    Executables,
    /// Dynamic libraries, loaded into the host process.
    Libraries,
}

/// Whether a directory entry is a dynamic library: its extension is the
/// platform's library extension.
pub open spec fn is_library(extension: Option<Seq<char>>, library_extension: Seq<char>) -> bool {
    extension == Some(library_extension)
}

/// Whether a discovery takes a directory entry: it must be a regular file,
/// and a library exactly when libraries are discovered. Sub-directories are
/// not entered.
pub fn takes_entry(
    discovery: Discovery,
    is_file: bool,
    extension: Option<&str>,
    library_extension: &str,
) -> (r: bool)
    ensures
        r == (is_file && (is_library(
            match extension {
                Some(e) => Some(e@),
                None => None,
            },
            library_extension@,
        ) <==> discovery == Discovery::Libraries)),
{
    let library = match extension {
        Some(e) => e.to_owned() == library_extension.to_owned(),
        None => false,
    };
    is_file && (library == (discovery == Discovery::Libraries))
}

/// Holds every script found, in the order in which they were found.
/// That order is the order in which a triggered hook reaches them.
#[derive(Debug)]
pub struct ScriptManager<T> {
    scripts: Vec<Script<T>>,
}

impl<T> View for ScriptManager<T> {
    type V = Seq<Script<T>>;

    closed spec fn view(&self) -> Seq<Script<T>> {
        self.scripts@
    }
}

impl<T> Default for ScriptManager<T> {
    fn default() -> (r: Self)
        ensures
            r@ == Seq::<Script<T>>::empty(),
    {
        ScriptManager::new()
    }
}

impl<T> ScriptManager<T> {
    /// An empty registry.
    pub fn new() -> (r: Self)
        ensures
            r@ == Seq::<Script<T>>::empty(),
    {
        ScriptManager { scripts: Vec::new() }
    }

    /// The scripts, in registry order.
    pub fn scripts(&self) -> (r: &[Script<T>])
        ensures
            r@ == self@,
    {
        self.scripts.as_slice()
    }

    /// The scripts, in registry order, to activate or deactivate them.
    pub fn scripts_mut(&mut self) -> (r: &mut [Script<T>])
        ensures
            r@ == old(self)@,
            final(self)@ == final(r)@,
    {
        self.scripts.as_mut_slice()
    }

    /// The script at `index`.
    pub fn script_mut(&mut self, index: usize) -> (r: &mut Script<T>)
        requires
            index < old(self)@.len(),
        ensures
            *r == old(self)@[index as int],
            final(self)@ == old(self)@.update(index as int, *final(r)),
    {
        &mut self.scripts[index]
    }

    /// Registers a script that answered discovery with `metadata`, reached
    /// through `transport`, to a host program of version `version`.
    ///
    /// The script is appended, active, when its version requirement matches
    /// `version`. Otherwise the registry stays as it was and the error
    /// carries the host version and the script's requirement.
    pub fn register(&mut self, metadata: ScriptInfo, transport: T, version: &Version) -> (r: Result<
        (),
        Error,
    >)
        ensures
            r is Ok <==> requirement_matches(metadata.version_requirement@, version@),
            r is Ok ==> {
                &&& final(self)@.len() == old(self)@.len() + 1
                &&& final(self)@.drop_last() == old(self)@
                &&& final(self)@.last().info() == metadata
                &&& final(self)@.last().handle() == transport
                &&& final(self)@.last().active()
            },
            r is Err ==> final(self)@ == old(self)@,
            r matches Err(e) ==> (e matches Error::ScriptVersionMismatch {
                program_actual_version: actual,
                program_required_version: required,
            } && actual@ == version@ && required == metadata.version_requirement),
    {
        let compatible = metadata.version_requirement.matches(version);
        self.register_checked(metadata, transport, version, compatible)
    }

    /// Registers a script once its requirement has been tested against
    /// `version`, `compatible` being the answer: appends it, active, when
    /// compatible, and otherwise leaves the registry as it was and reports
    /// the mismatch.
    pub fn register_checked(
        &mut self,
        metadata: ScriptInfo,
        transport: T,
        version: &Version,
        compatible: bool,
    ) -> (r: Result<(), Error>)
        ensures
            r is Ok <==> compatible,
            r is Ok ==> {
                &&& final(self)@.len() == old(self)@.len() + 1
                &&& final(self)@.drop_last() == old(self)@
                &&& final(self)@.last().info() == metadata
                &&& final(self)@.last().handle() == transport
                &&& final(self)@.last().active()
            },
            r is Err ==> final(self)@ == old(self)@,
            r matches Err(e) ==> (e matches Error::ScriptVersionMismatch {
                program_actual_version: actual,
                program_required_version: required,
            } && actual@ == version@ && required == metadata.version_requirement),
    {
        if !compatible {
            return Err(
                Error::ScriptVersionMismatch {
                    program_actual_version: version.clone(),
                    program_required_version: metadata.version_requirement,
                },
            );
        }
        self.scripts.push(Script::new(metadata, transport));
        assert(self.scripts@.drop_last() =~= old(self)@);
        Ok(())
    }

    /// The first script, from `from` on, that receives the hook named
    /// `hook_name`. Calling it again from the index after the answer walks
    /// the scripts a triggered hook reaches, one at a time and in order.
    pub fn next_listener(&self, hook_name: &str, from: usize) -> (r: Option<usize>)
        ensures
            r is None <==> fanout(self@, hook_name@, from as int).len() == 0,
            r matches Some(i) ==> fanout(self@, hook_name@, from as int) == seq![i as int]
                + fanout(self@, hook_name@, i + 1),
    {
        let mut i: usize = from;
        while i < self.scripts.len()
            invariant
                from <= i,
                fanout(self@, hook_name@, from as int) == fanout(self@, hook_name@, i as int),
            decreases self.scripts@.len() - i,
        {
            if self.scripts[i].receives_hook(hook_name) {
                return Some(i);
            }
            i = i + 1;
        }
        None
    }

    /// The indices of the scripts that the hook named `hook_name` reaches,
    /// in registry order.
    pub fn listeners(&self, hook_name: &str) -> (r: Vec<usize>)
        ensures
            r@.map_values(|i: usize| i as int) == fanout(self@, hook_name@, 0),
    {
        let mut out: Vec<usize> = Vec::new();
        let mut i: usize = 0;
        while i < self.scripts.len()
            invariant
                i <= self@.len(),
                out@.map_values(|k: usize| k as int) + fanout(self@, hook_name@, i as int)
                    == fanout(self@, hook_name@, 0),
            decreases self.scripts@.len() - i,
        {
            let ghost before = out@;
            if self.scripts[i].receives_hook(hook_name) {
                out.push(i);
                assert(out@.map_values(|k: usize| k as int) =~= before.map_values(
                    |k: usize| k as int,
                ).push(i as int));
                assert(out@.map_values(|k: usize| k as int) + fanout(self@, hook_name@, i + 1)
                    =~= before.map_values(|k: usize| k as int) + fanout(
                    self@,
                    hook_name@,
                    i as int,
                ));
            }
            i = i + 1;
        }
        assert(out@.map_values(|k: usize| k as int) + fanout(self@, hook_name@, i as int)
            =~= out@.map_values(|k: usize| k as int));
        out
    }
}

/// A triggered hook reaches a script exactly when the script is active and
/// listens for the hook: an index is in the fan-out from `from` iff it is a
/// script at or after `from` that receives the hook.
pub proof fn lemma_fanout_membership<T>(scripts: Seq<Script<T>>, name: Seq<char>, from: int, i: int)
    requires
        0 <= from,
    ensures
        fanout(scripts, name, from).contains(i) <==> (from <= i < scripts.len()
            && scripts[i].receives(name)),
    decreases scripts.len() - from,
{
    if from < scripts.len() {
        lemma_fanout_membership(scripts, name, from + 1, i);
        let rest = fanout(scripts, name, from + 1);
        if scripts[from].receives(name) {
            let all = seq![from] + rest;
            assert(all[0] == from);
            if rest.contains(i) {
                let k = choose|k: int| 0 <= k < rest.len() && rest[k] == i;
                assert(all[k + 1] == i);
            }
            if all.contains(i) && i != from {
                let k = choose|k: int| 0 <= k < all.len() && all[k] == i;
                assert(rest[k - 1] == i);
            }
        }
    }
}

/// The fan-out keeps registry order: its indices strictly increase and lie
/// in `[from, scripts.len())`, so the k-th result of a trigger comes from the
/// k-th receiving script in insertion order.
pub proof fn lemma_fanout_in_order<T>(scripts: Seq<Script<T>>, name: Seq<char>, from: int)
    requires
        0 <= from,
    ensures
        forall|k: int|
            0 <= k < fanout(scripts, name, from).len() ==> from <= #[trigger] fanout(
                scripts,
                name,
                from,
            )[k] < scripts.len(),
        forall|a: int, b: int|
            0 <= a < b < fanout(scripts, name, from).len() ==> #[trigger] fanout(
                scripts,
                name,
                from,
            )[a] < #[trigger] fanout(scripts, name, from)[b],
    decreases scripts.len() - from,
{
    if from < scripts.len() {
        lemma_fanout_in_order(scripts, name, from + 1);
        let rest = fanout(scripts, name, from + 1);
        if scripts[from].receives(name) {
            let all = seq![from] + rest;
            assert forall|k: int| 0 <= k < all.len() implies from <= #[trigger] all[k]
                < scripts.len() by {
                if k > 0 {
                    assert(all[k] == rest[k - 1]);
                }
            }
            assert forall|a: int, b: int| 0 <= a < b < all.len() implies #[trigger] all[a]
                < #[trigger] all[b] by {
                assert(all[b] == rest[b - 1]);
                if a > 0 {
                    assert(all[a] == rest[a - 1]);
                }
            }
        }
    }
}

/// Triggering a hook leaves the fan-out of every later trigger as it was:
/// a call through a script's transport changes neither its metadata nor
/// its state, and two registries that agree on those have the same fan-out.
pub proof fn lemma_fanout_same_routing<T>(
    before: Seq<Script<T>>,
    after: Seq<Script<T>>,
    name: Seq<char>,
    from: int,
)
    requires
        0 <= from,
        before.len() == after.len(),
        forall|i: int|
            0 <= i < before.len() ==> #[trigger] before[i].info() == after[i].info()
                && before[i].active() == after[i].active(),
    ensures
        fanout(before, name, from) == fanout(after, name, from),
    decreases before.len() - from,
{
    if from < before.len() {
        lemma_fanout_same_routing(before, after, name, from + 1);
        assert(before[from].info() == after[from].info());
    }
}

} // verus!
