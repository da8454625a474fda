//! The dispatcher: the one owner of the map from path to managed file. It
//! finds or makes the entry of an event's path and lets the tracker decide.
//! What happens on one path never touches the entry of another.

use vstd::prelude::*;
use crate::classifier::FileObservation;
use crate::codec::ToolRun;
use crate::config::{Config, ConfigView};
use crate::event::{intent, intent_of, Event};
use crate::tracker::{react, FileState, FileView, InputView, Intent, ManagedFile, Step, StepView};

verus! {

/// The files by path.
pub type Files = Map<Seq<char>, FileView>;

/// The dispatcher's reaction: the files afterwards, and the next step for
/// `path`. An event finds the entry of its path or makes a fresh one. Every
/// other input answers a step of an entry; without an entry it is
/// unexpected. The entry reacts as the tracker says; the entries of all
/// other paths stay as they are.
pub open spec fn dispatch(config: ConfigView, files: Files, path: Seq<char>, input: InputView) -> (Files, StepView) {
    if files.contains_key(path) || input is Arrived {
        let file = if files.contains_key(path) {
            files[path]
        } else {
            FileView::fresh()
        };
        let (next, step) = react(config, path, file, input);
        match next {
            Some(file) => (files.insert(path, file), step),
            None => (files.remove(path), step),
        }
    } else {
        (files, StepView::Unexpected)
    }
}

/// The map that a list of files with distinct paths stands for.
spec fn files_of(list: Seq<ManagedFile>) -> Files {
    Map::new(
        |path: Seq<char>| exists|i: int| 0 <= i < list.len() && list[i].path@ == path,
        |path: Seq<char>| list[choose|i: int| 0 <= i < list.len() && list[i].path@ == path]@,
    )
}

/// Every file is consistent.
spec fn all_consistent(list: Seq<ManagedFile>) -> bool {
    forall|i: int| 0 <= i < list.len() ==> (#[trigger] list[i])@.consistent()
}

/// No path occurs twice.
spec fn distinct_paths(list: Seq<ManagedFile>) -> bool {
    forall|i: int, j: int| 0 <= i < j < list.len() ==> list[i].path@ != list[j].path@
}

proof fn lemma_files_of_index(list: Seq<ManagedFile>, i: int)
    requires
        distinct_paths(list),
        0 <= i < list.len(),
    ensures
        files_of(list).contains_key(list[i].path@),
        files_of(list)[list[i].path@] == list[i]@,
{
    let path = list[i].path@;
    let k = choose|k: int| 0 <= k < list.len() && list[k].path@ == path;
    assert(k == i) by {
        if k < i {
            assert(list[k].path@ != list[i].path@);
        } else if i < k {
            assert(list[i].path@ != list[k].path@);
        }
    }
}

proof fn lemma_files_of_push(list: Seq<ManagedFile>, file: ManagedFile)
    requires
        distinct_paths(list),
        !files_of(list).contains_key(file.path@),
    ensures
        distinct_paths(list.push(file)),
        files_of(list.push(file)) == files_of(list).insert(file.path@, file@),
{
    let longer = list.push(file);
    assert forall|i: int, j: int| 0 <= i < j < longer.len() implies longer[i].path@ != longer[j].path@ by {
        if j < list.len() {
            assert(list[i].path@ != list[j].path@);
        } else {
            assert(list[i].path@ == longer[i].path@);
            if longer[i].path@ == file.path@ {
                assert(files_of(list).contains_key(list[i].path@));
            }
        }
    }
    assert forall|path: Seq<char>| files_of(longer).contains_key(path) <==> files_of(list).insert(
        file.path@,
        file@,
    ).contains_key(path) by {
        if files_of(longer).contains_key(path) {
            let k = choose|k: int| 0 <= k < longer.len() && longer[k].path@ == path;
            if k < list.len() {
                assert(list[k].path@ == path);
            }
        }
        if files_of(list).contains_key(path) {
            let k = choose|k: int| 0 <= k < list.len() && list[k].path@ == path;
            assert(longer[k].path@ == path);
        }
        if path == file.path@ {
            assert(longer[list.len() as int].path@ == path);
        }
    }
    assert forall|path: Seq<char>| files_of(longer).contains_key(path) implies files_of(longer)[path]
        == files_of(list).insert(file.path@, file@)[path] by {
        let k = choose|k: int| 0 <= k < longer.len() && longer[k].path@ == path;
        lemma_files_of_index(longer, k);
        if k < list.len() {
            lemma_files_of_index(list, k);
        }
    }
    assert(files_of(longer) =~= files_of(list).insert(file.path@, file@));
}

proof fn lemma_files_of_remove(list: Seq<ManagedFile>, i: int)
    requires
        distinct_paths(list),
        0 <= i < list.len(),
    ensures
        distinct_paths(list.remove(i)),
        files_of(list.remove(i)) == files_of(list).remove(list[i].path@),
{
    let shorter = list.remove(i);
    assert forall|a: int, b: int| 0 <= a < b < shorter.len() implies shorter[a].path@ != shorter[b].path@ by {
        let a0 = if a < i { a } else { a + 1 };
        let b0 = if b < i { b } else { b + 1 };
        assert(shorter[a] == list[a0]);
        assert(shorter[b] == list[b0]);
        assert(list[a0].path@ != list[b0].path@);
    }
    assert forall|path: Seq<char>| files_of(shorter).contains_key(path) <==> files_of(list).remove(
        list[i].path@,
    ).contains_key(path) by {
        if files_of(shorter).contains_key(path) {
            let k = choose|k: int| 0 <= k < shorter.len() && shorter[k].path@ == path;
            let k0 = if k < i { k } else { k + 1 };
            assert(shorter[k] == list[k0]);
            assert(list[k0].path@ == path);
            if k0 < i {
                assert(list[k0].path@ != list[i].path@);
            } else {
                assert(list[i].path@ != list[k0].path@);
            }
        }
        if files_of(list).contains_key(path) && path != list[i].path@ {
            let k = choose|k: int| 0 <= k < list.len() && list[k].path@ == path;
            let k1 = if k < i { k } else { k - 1 };
            assert(shorter[k1] == list[k]);
            assert(shorter[k1].path@ == path);
        }
    }
    assert forall|path: Seq<char>| files_of(shorter).contains_key(path) implies files_of(shorter)[path]
        == files_of(list).remove(list[i].path@)[path] by {
        let k = choose|k: int| 0 <= k < shorter.len() && shorter[k].path@ == path;
        let k0 = if k < i { k } else { k + 1 };
        assert(shorter[k] == list[k0]);
        lemma_files_of_index(shorter, k);
        lemma_files_of_index(list, k0);
    }
    assert(files_of(shorter) =~= files_of(list).remove(list[i].path@));
}

/// The index of the entry of `path` in a list.
fn find_in(list: &Vec<ManagedFile>, path: &str) -> (found: Option<usize>)
    ensures
        match found {
            Some(i) => i < list.len() && list[i as int].path@ == path@,
            None => !files_of(list@).contains_key(path@),
        },
{
    let key = path.to_owned();
    let mut i: usize = 0;
    while i < list.len()
        invariant
            i <= list.len(),
            key@ == path@,
            forall|j: int| 0 <= j < i ==> list[j].path@ != path@,
        decreases list.len() - i,
    {
        if list[i].path == key {
            return Some(i);
        }
        i += 1;
    }
    None
}

/// The state of the whole watch: its settings and what it knows of each path.
pub struct Dispatcher {
    config: Config,
    files: Vec<ManagedFile>,
}

impl View for Dispatcher {
    type V = Files;

    closed spec fn view(&self) -> Files {
        files_of(self.files@)
    }
}

impl Dispatcher {
    #[verifier::type_invariant]
    spec fn well_formed(&self) -> bool {
        distinct_paths(self.files@) && all_consistent(self.files@)
    }

    /// The settings the dispatcher was made with.
    pub closed spec fn settings(&self) -> Config {
        self.config
    }

    /// A dispatcher that knows no file yet.
    pub fn new(config: Config) -> (dispatcher: Dispatcher)
        ensures
            dispatcher@ == Files::empty(),
            dispatcher.settings() == config,
    {
        let dispatcher = Dispatcher { config, files: Vec::new() };
        assert(dispatcher@ =~= Files::empty());
        dispatcher
    }

    /// The settings.
    pub fn config(&self) -> (config: &Config)
        ensures
            *config == self.settings(),
    {
        &self.config
    }

    /// What is known of `path`, if anything.
    pub fn get(&self, path: &str) -> (file: Option<&ManagedFile>)
        ensures
            match file {
                Some(file) => self@.contains_key(path@) && file.path@ == path@ && file@ == self@[path@]
                    && file@.consistent(),
                None => !self@.contains_key(path@),
            },
    {
        proof {
            use_type_invariant(self);
        }
        match find_in(&self.files, path) {
            Some(i) => {
                proof {
                    lemma_files_of_index(self.files@, i as int);
                }
                Some(&self.files[i])
            },
            None => None,
        }
    }

    /// Where the file at `path` stands, if it is known.
    pub fn state(&self, path: &str) -> (state: Option<FileState>)
        ensures
            match state {
                Some(state) => self@.contains_key(path@) && state == self@[path@].state(),
                None => !self@.contains_key(path@),
            },
    {
        match self.get(path) {
            Some(file) => Some(file.state()),
            None => None,
        }
    }

    /// Whether a transition of `path` is under way.
    pub fn is_locked(&self, path: &str) -> (locked: bool)
        ensures
            locked == (self@.contains_key(path@) && self@[path@].locked()),
    {
        match self.get(path) {
            Some(file) => file.is_locked(),
            None => false,
        }
    }

    /// Takes the entry of `path` out of the map.
    fn take(&mut self, path: &str) -> (taken: Option<ManagedFile>)
        ensures
            final(self).settings() == old(self).settings(),
            match taken {
                Some(file) => old(self)@.contains_key(path@) && file.path@ == path@ && file@ == old(self)@[path@]
                    && file@.consistent() && final(self)@ == old(self)@.remove(path@),
                None => !old(self)@.contains_key(path@) && final(self)@ == old(self)@,
            },
    {
        proof {
            use_type_invariant(&*self);
        }
        let mut list: Vec<ManagedFile> = Vec::new();
        core::mem::swap(&mut self.files, &mut list);
        let taken = match find_in(&list, path) {
            Some(i) => {
                proof {
                    lemma_files_of_index(list@, i as int);
                    lemma_files_of_remove(list@, i as int);
                }
                Some(list.remove(i))
            },
            None => None,
        };
        core::mem::swap(&mut self.files, &mut list);
        taken
    }

    /// Puts an entry into the map.
    fn put(&mut self, file: ManagedFile)
        requires
            !old(self)@.contains_key(file.path@),
            file@.consistent(),
        ensures
            final(self).settings() == old(self).settings(),
            final(self)@ == old(self)@.insert(file.path@, file@),
    {
        proof {
            use_type_invariant(&*self);
            lemma_files_of_push(self.files@, file);
        }
        let mut list: Vec<ManagedFile> = Vec::new();
        core::mem::swap(&mut self.files, &mut list);
        list.push(file);
        core::mem::swap(&mut self.files, &mut list);
    }

    /// An event arrives for `path`, with what it asks of the file.
    pub fn begin(&mut self, path: &str, intent: Intent) -> (step: Step)
        ensures
            final(self).settings() == old(self).settings(),
            final(self)@ == dispatch(old(self).settings()@, old(self)@, path@, InputView::Arrived { intent }).0,
            step@ == dispatch(old(self).settings()@, old(self)@, path@, InputView::Arrived { intent }).1,
    {
        let mut file = match self.take(path) {
            Some(file) => file,
            None => ManagedFile::new(path),
        };
        let step = file.begin(intent);
        self.put(file);
        assert(final(self)@ =~= dispatch(old(self).settings()@, old(self)@, path@, InputView::Arrived { intent }).0);
        step
    }

    /// An event of the watch arrives.
    pub fn handle_event(&mut self, event: &Event) -> (step: Step)
        ensures
            final(self).settings() == old(self).settings(),
            final(self)@ == dispatch(
                old(self).settings()@,
                old(self)@,
                event.path@,
                InputView::Arrived { intent: intent_of(event.kind) },
            ).0,
            step@ == dispatch(
                old(self).settings()@,
                old(self)@,
                event.path@,
                InputView::Arrived { intent: intent_of(event.kind) },
            ).1,
    {
        self.begin(event.path.as_str(), intent(event.kind))
    }

    /// The file at `path` was looked at, in answer to `Step::Observe`.
    pub fn observed(&mut self, path: &str, seen: FileObservation) -> (step: Step)
        ensures
            final(self).settings() == old(self).settings(),
            final(self)@ == dispatch(old(self).settings()@, old(self)@, path@, InputView::Observed(seen@)).0,
            step@ == dispatch(old(self).settings()@, old(self)@, path@, InputView::Observed(seen@)).1,
    {
        let file = match self.take(path) {
            Some(file) => file,
            None => {
                return Step::Unexpected;
            },
        };
        let (next, step) = file.observe(&self.config, seen);
        match next {
            Some(file) => {
                self.put(file);
            },
            None => {},
        }
        assert(final(self)@ =~= dispatch(old(self).settings()@, old(self)@, path@, InputView::Observed(seen@)).0);
        step
    }

    /// The tool has run for `path`, in answer to `Step::RunTool`.
    pub fn tool_finished(&mut self, path: &str, run: ToolRun) -> (step: Step)
        ensures
            final(self).settings() == old(self).settings(),
            final(self)@ == dispatch(old(self).settings()@, old(self)@, path@, InputView::ToolFinished(run@)).0,
            step@ == dispatch(old(self).settings()@, old(self)@, path@, InputView::ToolFinished(run@)).1,
    {
        let mut file = match self.take(path) {
            Some(file) => file,
            None => {
                return Step::Unexpected;
            },
        };
        let step = file.tool_finished(run);
        self.put(file);
        assert(final(self)@ =~= dispatch(old(self).settings()@, old(self)@, path@, InputView::ToolFinished(run@)).0);
        step
    }

    /// A write or a rename for `path` has ended, in answer to
    /// `Step::WriteFile` or `Step::Rename`.
    pub fn file_op_finished(&mut self, path: &str, done: bool) -> (step: Step)
        ensures
            final(self).settings() == old(self).settings(),
            final(self)@ == dispatch(old(self).settings()@, old(self)@, path@, InputView::FileOpFinished(done)).0,
            step@ == dispatch(old(self).settings()@, old(self)@, path@, InputView::FileOpFinished(done)).1,
    {
        let mut file = match self.take(path) {
            Some(file) => file,
            None => {
                return Step::Unexpected;
            },
        };
        let step = file.file_op_finished(done);
        self.put(file);
        assert(final(self)@ =~= dispatch(old(self).settings()@, old(self)@, path@, InputView::FileOpFinished(done)).0);
        step
    }
}

} // verus!
