//! Choosing the tasks to control from the processes found on the system.
//!
//! A process is selected when its name is exactly the target name and, if a
//! command-line pattern is configured, one of its arguments contains the
//! pattern. The tasks of the selected processes, each followed by the
//! process's own id, are the tasks to control; no id is listed twice.

use vstd::prelude::*;
use crate::config::Config;
use crate::text::{contains, occurs_in};

verus! {

/// What is known of one process: its id, its name, the arguments of its
/// command line, and the ids of its other tasks where the system lists them.
#[derive(Clone, Debug)]
pub struct ProcessInfo {
    pub pid: i32,
    pub name: String,
    pub cmd: Vec<String>,
    pub tasks: Option<Vec<i32>>,
}

/// A process as the rules below see it.
pub struct ProcessView {
    pub pid: i32,
    pub name: Seq<char>,
    pub cmd: Seq<Seq<char>>,
    pub tasks: Option<Seq<i32>>,
}

impl View for ProcessInfo {
    type V = ProcessView;

    open spec fn view(&self) -> ProcessView {
        ProcessView {
            pid: self.pid,
            name: self.name@,
            cmd: self.cmd.deep_view(),
            tasks: match self.tasks {
                Some(tasks) => Some(tasks@),
                None => None,
            },
        }
    }
}

/// The processes of a list as the rules see them.
pub open spec fn views(processes: Seq<ProcessInfo>) -> Seq<ProcessView> {
    Seq::new(processes.len(), |i: int| processes[i]@)
}

/// What a process must look like to be selected.
pub struct Target {
    /// The name that the process must have.
    pub name: Seq<char>,
    /// The text that one of its arguments must contain, if any.
    pub pattern: Option<Seq<char>>,
}

impl Config {
    /// The target that this configuration describes.
    pub open spec fn target(&self) -> Target {
        Target {
            name: self.process_name@,
            pattern: match self.cmd_line_pattern {
                Some(pattern) => Some(pattern@),
                None => None,
            },
        }
    }
}

/// The judgment on one process.
#[derive(Clone, Copy, Debug, PartialEq, Eq, Structural)]
pub enum Verdict {
    /// The process is a target: its tasks are to be controlled.
    Selected,
    /// The name of the process is not the target name.
    NameDiffers,
    /// The name is right, but no argument contains the pattern.
    PatternMissing,
}

/// The outcome of looking through the processes once.
#[derive(Clone, Debug, PartialEq, Eq)]
pub enum Discovery {
    /// At least one process was selected; these are the tasks to control.
    /// The list is empty where no selected process has its tasks listed.
    Found(Vec<i32>),
    /// No process was selected.
    NotFound,
}

impl View for Discovery {
    type V = Option<Seq<i32>>;

    open spec fn view(&self) -> Option<Seq<i32>> {
        match self {
            Discovery::Found(tasks) => Some(tasks@),
            Discovery::NotFound => None,
        }
    }
}

/// What one look through the processes gave.
#[derive(Clone, Debug)]
pub struct Round {
    /// The tasks to control, if a process was selected.
    pub discovery: Discovery,
    /// The names of the processes that were turned down for their name, in
    /// the order of the list.
    pub mismatched: Vec<String>,
}

/// Whether the command line `cmd` satisfies `pattern`: no pattern asks for
/// nothing, and a pattern must occur in at least one argument.
pub open spec fn pattern_found(cmd: Seq<Seq<char>>, pattern: Option<Seq<char>>) -> bool {
    match pattern {
        Some(text) => exists|i: int| 0 <= i < cmd.len() && occurs_in(#[trigger] cmd[i], text),
        None => true,
    }
}

/// The judgment on `process`. The name is looked at first.
pub open spec fn verdict(process: ProcessView, target: Target) -> Verdict {
    if process.name != target.name {
        Verdict::NameDiffers
    } else if !pattern_found(process.cmd, target.pattern) {
        Verdict::PatternMissing
    } else {
        Verdict::Selected
    }
}

/// The tasks that a selected process brings: its listed tasks, then the
/// process itself. A process whose tasks are not listed brings nothing.
pub open spec fn own_tasks(process: ProcessView) -> Seq<i32> {
    match process.tasks {
        Some(tasks) => tasks.push(process.pid),
        None => Seq::empty(),
    }
}

/// The tasks of all selected processes of the list, in the order of the list.
pub open spec fn selected_tasks(processes: Seq<ProcessView>, target: Target) -> Seq<i32>
    decreases processes.len(),
{
    if processes.len() == 0 {
        Seq::empty()
    } else if verdict(processes.last(), target) is Selected {
        selected_tasks(processes.drop_last(), target) + own_tasks(processes.last())
    } else {
        selected_tasks(processes.drop_last(), target)
    }
}

/// The names of the processes of the list that have another name than the
/// target, in the order of the list.
pub open spec fn mismatched_names(processes: Seq<ProcessView>, target: Target) -> Seq<Seq<char>>
    decreases processes.len(),
{
    if processes.len() == 0 {
        Seq::empty()
    } else if processes.last().name != target.name {
        mismatched_names(processes.drop_last(), target).push(processes.last().name)
    } else {
        mismatched_names(processes.drop_last(), target)
    }
}

/// Whether the list holds a selected process.
pub open spec fn any_selected(processes: Seq<ProcessView>, target: Target) -> bool {
    exists|i: int| 0 <= i < processes.len() && verdict(#[trigger] processes[i], target) is Selected
}

/// `ids` without repetitions: each id stays where it first stands.
pub open spec fn distinct(ids: Seq<i32>) -> Seq<i32>
    decreases ids.len(),
{
    if ids.len() == 0 {
        Seq::empty()
    } else if distinct(ids.drop_last()).contains(ids.last()) {
        distinct(ids.drop_last())
    } else {
        distinct(ids.drop_last()).push(ids.last())
    }
}

/// What one look through `processes` gives: the distinct tasks of the
/// selected processes if there is one, and nothing otherwise.
pub open spec fn discover(processes: Seq<ProcessView>, target: Target) -> Option<Seq<i32>> {
    if any_selected(processes, target) {
        Some(distinct(selected_tasks(processes, target)))
    } else {
        None
    }
}

/// `distinct` keeps every id, keeps none twice, and invents none.
pub proof fn lemma_distinct(ids: Seq<i32>)
    ensures
        distinct(ids).no_duplicates(),
        distinct(ids).len() <= ids.len(),
        forall|id: i32| distinct(ids).contains(id) <==> ids.contains(id),
        ids.no_duplicates() ==> distinct(ids) == ids,
    decreases ids.len(),
{
    if ids.len() > 0 {
        let front = ids.drop_last();
        let kept = distinct(front);
        lemma_distinct(front);
        assert forall|id: i32| distinct(ids).contains(id) <==> ids.contains(id) by {
            if ids.contains(id) {
                let i = choose|i: int| 0 <= i < ids.len() && ids[i] == id;
                if i < front.len() {
                    assert(front[i] == id);
                    assert(front.contains(id));
                    assert(kept.contains(id));
                    let k = choose|k: int| 0 <= k < kept.len() && kept[k] == id;
                    assert(distinct(ids)[k] == id);
                } else {
                    if !kept.contains(id) {
                        assert(distinct(ids)[kept.len() as int] == id);
                    }
                }
            }
            if distinct(ids).contains(id) {
                let k = choose|k: int| 0 <= k < distinct(ids).len() && distinct(ids)[k] == id;
                if k < kept.len() {
                    assert(kept[k] == id);
                    assert(front.contains(id));
                    let i = choose|i: int| 0 <= i < front.len() && front[i] == id;
                    assert(ids[i] == id);
                } else {
                    assert(ids[ids.len() - 1] == id);
                }
            }
        }
        if ids.no_duplicates() {
            assert(front.no_duplicates());
            if front.contains(ids.last()) {
                let i = choose|i: int| 0 <= i < front.len() && front[i] == ids.last();
                assert(ids[i] == ids[ids.len() - 1]);
            }
            assert(distinct(ids) =~= ids);
        }
    }
}

impl ProcessInfo {
    /// Whether the name of this process is exactly the target name. A name
    /// that only contains the target name does not match.
    pub fn name_matches(&self, config: &Config) -> (matches: bool)
        ensures
            matches == (self@.name == config.target().name),
    {
        self.name == config.process_name
    }

    /// Whether the command line of this process satisfies the configured
    /// pattern: always where none is configured, and otherwise where at least
    /// one argument contains the pattern, upper and lower case kept apart.
    pub fn command_line_matches(&self, config: &Config) -> (matches: bool)
        ensures
            matches == pattern_found(self@.cmd, config.target().pattern),
    {
        match &config.cmd_line_pattern {
            None => true,
            Some(pattern) => {
                let mut i: usize = 0;
                while i < self.cmd.len()
                    invariant
                        i <= self.cmd.len(),
                        config.target().pattern == Some(pattern@),
                        forall|j: int| 0 <= j < i ==> !occurs_in(#[trigger] self@.cmd[j], pattern@),
                    decreases self.cmd.len() - i,
                {
                    if contains(self.cmd[i].as_str(), pattern.as_str()) {
                        assert(occurs_in(self@.cmd[i as int], pattern@));
                        return true;
                    }
                    i += 1;
                }
                false
            },
        }
    }

    /// The judgment on this process.
    pub fn classify(&self, config: &Config) -> (judgment: Verdict)
        ensures
            judgment == verdict(self@, config.target()),
    {
        if !self.name_matches(config) {
            Verdict::NameDiffers
        } else if !self.command_line_matches(config) {
            Verdict::PatternMissing
        } else {
            Verdict::Selected
        }
    }

    /// The tasks that this process brings when it is selected: its listed
    /// tasks in their order, then the process itself; nothing where its tasks
    /// are not listed.
    pub fn task_ids(&self) -> (ids: Vec<i32>)
        ensures
            ids@ == own_tasks(self@),
    {
        let mut ids: Vec<i32> = Vec::new();
        match &self.tasks {
            Some(tasks) => {
                let mut i: usize = 0;
                while i < tasks.len()
                    invariant
                        i <= tasks.len(),
                        ids@ == tasks@.take(i as int),
                    decreases tasks.len() - i,
                {
                    ids.push(tasks[i]);
                    assert(tasks@.take(i + 1) == tasks@.take(i as int).push(tasks@[i as int]));
                    i += 1;
                }
                assert(tasks@.take(tasks.len() as int) == tasks@);
                ids.push(self.pid);
            },
            None => {},
        }
        ids
    }
}

/// Whether `id` is among `ids`.
fn holds(ids: &Vec<i32>, id: i32) -> (found: bool)
    ensures
        found == ids@.contains(id),
{
    let mut i: usize = 0;
    while i < ids.len()
        invariant
            i <= ids.len(),
            forall|j: int| 0 <= j < i ==> ids@[j] != id,
        decreases ids.len() - i,
    {
        if ids[i] == id {
            return true;
        }
        i += 1;
    }
    false
}

/// The ids of `ids` without repetitions, each where it first stands. The
/// result names exactly the tasks that `ids` names, and none twice.
pub fn distinct_tasks(ids: &Vec<i32>) -> (kept: Vec<i32>)
    ensures
        kept@ == distinct(ids@),
        kept@.no_duplicates(),
        forall|id: i32| kept@.contains(id) <==> ids@.contains(id),
{
    let mut kept: Vec<i32> = Vec::new();
    let mut i: usize = 0;
    while i < ids.len()
        invariant
            i <= ids.len(),
            kept@ == distinct(ids@.take(i as int)),
        decreases ids.len() - i,
    {
        let id: i32 = ids[i];
        assert(ids@.take(i + 1).drop_last() == ids@.take(i as int));
        if !holds(&kept, id) {
            kept.push(id);
        }
        i += 1;
    }
    proof {
        assert(ids@.take(ids.len() as int) == ids@);
        lemma_distinct(ids@);
    }
    kept
}

/// Looks through `processes` once. The tasks to control are those of the
/// selected processes, in the order of the list and without repetitions; if
/// no process is selected, nothing is found. The names that are not the
/// target name are reported alongside.
pub fn scan(processes: &Vec<ProcessInfo>, config: &Config) -> (round: Round)
    ensures
        round.discovery@ == discover(views(processes@), config.target()),
        round.mismatched.deep_view() == mismatched_names(views(processes@), config.target()),
{
    let ghost all = views(processes@);
    let ghost target = config.target();
    let mut found: bool = false;
    let mut tasks: Vec<i32> = Vec::new();
    let mut mismatched: Vec<String> = Vec::new();
    let mut i: usize = 0;
    while i < processes.len()
        invariant
            i <= processes.len(),
            all == views(processes@),
            target == config.target(),
            found == any_selected(all.take(i as int), target),
            tasks@ == selected_tasks(all.take(i as int), target),
            mismatched.deep_view() == mismatched_names(all.take(i as int), target),
        decreases processes.len() - i,
    {
        let process = &processes[i];
        let ghost before = all.take(i as int);
        let ghost upto = all.take(i + 1);
        assert(upto.drop_last() == before);
        assert(upto.last() == process@);
        match process.classify(config) {
            Verdict::Selected => {
                let mut own = process.task_ids();
                tasks.append(&mut own);
                found = true;
                assert(verdict(upto[i as int], target) is Selected);
            },
            Verdict::NameDiffers => {
                let ghost names = mismatched.deep_view();
                mismatched.push(process.name.clone());
                assert(mismatched.deep_view() == names.push(process@.name));
            },
            Verdict::PatternMissing => {},
        }
        proof {
            if any_selected(upto, target) && !(verdict(process@, target) is Selected) {
                let k = choose|k: int|
                    0 <= k < upto.len() && verdict(#[trigger] upto[k], target) is Selected;
                assert(before[k] == upto[k]);
            }
            if any_selected(before, target) {
                let k = choose|k: int|
                    0 <= k < before.len() && verdict(#[trigger] before[k], target) is Selected;
                assert(upto[k] == before[k]);
            }
        }
        i += 1;
    }
    assert(all.take(processes.len() as int) == all);
    let discovery = if found {
        Discovery::Found(distinct_tasks(&tasks))
    } else {
        Discovery::NotFound
    };
    Round { discovery, mismatched }
}

/// Whether to look again after a round: only while nothing was found and
/// the configuration says to wait for the process.
pub fn keep_looking(discovery: &Discovery, config: &Config) -> (again: bool)
    ensures
        again == (discovery@ is None && config.wait_for_process),
{
    match discovery {
        Discovery::Found(_) => false,
        Discovery::NotFound => config.wait_for_process,
    }
}

/// Whether process `i` of the list is selected and brings the task `id`.
pub open spec fn brings(processes: Seq<ProcessView>, target: Target, i: int, id: i32) -> bool {
    &&& 0 <= i < processes.len()
    &&& verdict(processes[i], target) is Selected
    &&& own_tasks(processes[i]).contains(id)
}

/// The name must be the target name exactly: a process whose name contains
/// the target name, but is not equal to it, is turned down for its name,
/// whatever its command line holds.
pub proof fn lemma_containing_name_rejected(process: ProcessView, target: Target)
    requires
        occurs_in(process.name, target.name),
        process.name != target.name,
    ensures
        verdict(process, target) is NameDiffers,
{
}

/// With a pattern configured, a process is selected only if at least one of
/// its arguments contains the pattern, character for character.
pub proof fn lemma_pattern_required(process: ProcessView, target: Target, pattern: Seq<char>)
    requires
        target.pattern == Some(pattern),
        verdict(process, target) is Selected,
    ensures
        process.name == target.name,
        exists|i: int| 0 <= i < process.cmd.len() && occurs_in(#[trigger] process.cmd[i], pattern),
{
}

/// The tasks of the selected processes are exactly the tasks that some
/// selected process brings.
proof fn lemma_selected_tasks(processes: Seq<ProcessView>, target: Target, id: i32)
    ensures
        selected_tasks(processes, target).contains(id) <==> exists|i: int|
            brings(processes, target, i, id),
    decreases processes.len(),
{
    if processes.len() > 0 {
        let front = processes.drop_last();
        let last = processes.len() - 1;
        let before = selected_tasks(front, target);
        let own = own_tasks(processes.last());
        lemma_selected_tasks(front, target, id);
        if selected_tasks(processes, target).contains(id) {
            let all = selected_tasks(processes, target);
            let k = choose|k: int| 0 <= k < all.len() && all[k] == id;
            if k < before.len() {
                assert(before[k] == id);
                assert(before.contains(id));
                let i = choose|i: int| brings(front, target, i, id);
                assert(front[i] == processes[i]);
                assert(brings(processes, target, i, id));
            } else {
                assert(own[k - before.len()] == id);
                assert(brings(processes, target, last, id));
            }
        }
        if exists|i: int| brings(processes, target, i, id) {
            let i = choose|i: int| brings(processes, target, i, id);
            if i < last {
                assert(front[i] == processes[i]);
                assert(brings(front, target, i, id));
                assert(before.contains(id));
                let k = choose|k: int| 0 <= k < before.len() && before[k] == id;
                assert(selected_tasks(processes, target)[k] == id);
            } else {
                let k = choose|k: int| 0 <= k < own.len() && own[k] == id;
                assert(selected_tasks(processes, target)[before.len() + k] == id);
            }
        }
    }
}

/// Something is found exactly when some process of the list has the target
/// name and a command line that satisfies the pattern. What is found names
/// no task twice, and names exactly the tasks that the selected processes
/// bring: a process that is turned down adds no task.
pub proof fn lemma_discovery_from_selected(processes: Seq<ProcessView>, target: Target)
    ensures
        discover(processes, target) is Some <==> exists|i: int|
            0 <= i < processes.len() && (#[trigger] processes[i]).name == target.name
                && pattern_found(processes[i].cmd, target.pattern),
        discover(processes, target) matches Some(tasks) ==> tasks.no_duplicates() && tasks
            == distinct(selected_tasks(processes, target)),
        forall|id: i32|
            distinct(selected_tasks(processes, target)).contains(id) <==> exists|i: int|
                brings(processes, target, i, id),
{
    if any_selected(processes, target) {
        let i = choose|i: int|
            0 <= i < processes.len() && verdict(#[trigger] processes[i], target) is Selected;
        assert(processes[i].name == target.name && pattern_found(processes[i].cmd, target.pattern));
    }
    if exists|i: int|
        0 <= i < processes.len() && (#[trigger] processes[i]).name == target.name && pattern_found(
            processes[i].cmd,
            target.pattern,
        ) {
        let i = choose|i: int|
            0 <= i < processes.len() && (#[trigger] processes[i]).name == target.name
                && pattern_found(processes[i].cmd, target.pattern);
        assert(verdict(processes[i], target) is Selected);
    }
    let all = selected_tasks(processes, target);
    lemma_distinct(all);
    assert forall|id: i32| distinct(all).contains(id) <==> exists|i: int|
        brings(processes, target, i, id) by {
        lemma_selected_tasks(processes, target, id);
    }
}

/// One selected process whose listed tasks are all different gives one task
/// to control for each listed task, and one more for the process itself
/// unless the process is among its listed tasks.
pub proof fn lemma_tasks_of_one_process(process: ProcessView, target: Target, tasks: Seq<i32>)
    requires
        verdict(process, target) is Selected,
        process.tasks == Some(tasks),
        tasks.no_duplicates(),
    ensures
        tasks.contains(process.pid) ==> discover(seq![process], target) == Some(tasks),
        !tasks.contains(process.pid) ==> discover(seq![process], target) == Some(
            tasks.push(process.pid),
        ),
        discover(seq![process], target) matches Some(found) && (found.len() == tasks.len()
            || found.len() == tasks.len() + 1),
{
    let only = seq![process];
    assert(only.last() == process);
    assert(only.drop_last() =~= Seq::<ProcessView>::empty());
    assert(verdict(only[0], target) is Selected);
    assert(selected_tasks(only.drop_last(), target) =~= Seq::<i32>::empty());
    assert(selected_tasks(only, target) =~= tasks.push(process.pid));
    assert(tasks.push(process.pid).drop_last() =~= tasks);
    lemma_distinct(tasks);
}

} // verus!
