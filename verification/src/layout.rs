//! The stage directories as a state: which file stands where, and what a
//! save or a move does to that state.

use vstd::prelude::*;
use vstd::string::*;
use crate::names::{make_name, replace_ext};
use crate::text::owned;

verus! {

/// One of the four directories that a file passes through.
#[derive(Debug, Clone, Copy, PartialEq, Eq, Structural)]
pub enum Stage {
    Incoming,
    Working,
    Processed,
    Failed,
}

impl Stage {
    /// The directory's name below the base directory.
    pub open spec fn dir_name(self) -> Seq<char> {
        match self {
            Stage::Incoming => "incoming"@,
            Stage::Working => "working"@,
            Stage::Processed => "processed"@,
            Stage::Failed => "failed"@,
        }
    }

    /// The directory's name below the base directory.
    pub fn name(self) -> (r: &'static str)
        ensures
            r@ == self.dir_name(),
    {
        match self {
            Stage::Incoming => crate::DIR_INCOMING,
            Stage::Working => crate::DIR_WORKING,
            Stage::Processed => crate::DIR_PROCESSED,
            Stage::Failed => crate::DIR_FAILED,
        }
    }
}

/// A text file that is written into a stage.
#[derive(Debug)]
pub struct FileText {
    pub name: String,
    pub stage: Stage,
    pub content: String,
}

/// A move of a file from one stage into another, under a new name. A move
/// that is `required` has to succeed for the work to go on; one that is not
/// is tried, and its failure is put up with.
#[derive(Debug)]
pub struct FileMove {
    pub from_name: String,
    pub from: Stage,
    pub to_name: String,
    pub to: Stage,
    pub required: bool,
}

/// A text file to write, as plain values.
pub struct TextView {
    pub name: Seq<char>,
    pub stage: Stage,
    pub content: Seq<char>,
}

/// A move, as plain values.
pub struct MoveView {
    pub from_name: Seq<char>,
    pub from: Stage,
    pub to_name: Seq<char>,
    pub to: Stage,
    pub required: bool,
}

impl View for FileText {
    type V = TextView;

    open spec fn view(&self) -> TextView {
        TextView { name: self.name@, stage: self.stage, content: self.content@ }
    }
}

impl View for FileMove {
    type V = MoveView;

    open spec fn view(&self) -> MoveView {
        MoveView {
            from_name: self.from_name@,
            from: self.from,
            to_name: self.to_name@,
            to: self.to,
            required: self.required,
        }
    }
}

/// The move of the audio `file` from the stage `from` into `to`, where it
/// gets the name `new_name`. It is required.
pub open spec fn audio_move(file: Seq<char>, new_name: Seq<char>, from: Stage, to: Stage) -> MoveView {
    MoveView { from_name: file, from, to_name: new_name, to, required: true }
}

/// The move of the companion of `file` from the stage `from` into `to`,
/// where it gets the name of the companion of `new_name`. It is not required:
/// a file may have no companion.
pub open spec fn meta_move(file: Seq<char>, new_name: Seq<char>, from: Stage, to: Stage) -> MoveView {
    MoveView {
        from_name: replace_ext(file, ".meta"@),
        from,
        to_name: replace_ext(new_name, ".meta"@),
        to,
        required: false,
    }
}

/// The two moves that take an audio file and its companion from one stage
/// into another: first the audio, then the companion.
pub fn moves(file: &str, new_name: &str, from: Stage, to: Stage) -> (r: (FileMove, FileMove))
    ensures
        r.0@ == audio_move(file@, new_name@, from, to),
        r.1@ == meta_move(file@, new_name@, from, to),
{
    let audio = FileMove {
        from_name: owned(file),
        from,
        to_name: owned(new_name),
        to,
        required: true,
    };
    let meta = FileMove {
        from_name: make_name(file, crate::INFO_EXTENSION),
        from,
        to_name: make_name(new_name, crate::INFO_EXTENSION),
        to,
        required: false,
    };
    (audio, meta)
}

/// The files of one stage: content by name.
pub type Dir = Map<Seq<char>, Seq<char>>;

/// The files of all stages below one base directory.
pub struct Layout {
    pub incoming: Dir,
    pub working: Dir,
    pub processed: Dir,
    pub failed: Dir,
}

impl Layout {
    /// The files of one stage.
    pub open spec fn dir(self, stage: Stage) -> Dir {
        match stage {
            Stage::Incoming => self.incoming,
            Stage::Working => self.working,
            Stage::Processed => self.processed,
            Stage::Failed => self.failed,
        }
    }

    /// The layout with the files of one stage replaced.
    pub open spec fn with_dir(self, stage: Stage, d: Dir) -> Layout {
        match stage {
            Stage::Incoming => Layout { incoming: d, ..self },
            Stage::Working => Layout { working: d, ..self },
            Stage::Processed => Layout { processed: d, ..self },
            Stage::Failed => Layout { failed: d, ..self },
        }
    }

    /// The layout after a text file is written: a file of that name is
    /// replaced.
    pub open spec fn saved(self, t: TextView) -> Layout {
        self.with_dir(t.stage, self.dir(t.stage).insert(t.name, t.content))
    }

    /// Whether a move finds its source.
    pub open spec fn can_move(self, m: MoveView) -> bool {
        self.dir(m.from).contains_key(m.from_name)
    }

    /// Whether the work goes on after a move: it does unless a required move
    /// does not find its source.
    pub open spec fn goes_on(self, m: MoveView) -> bool {
        self.can_move(m) || !m.required
    }

    /// The layout after a move: without its source it changes nothing; else a
    /// file that stands at the destination is removed, and the source takes
    /// its place, provided it is still there.
    pub open spec fn moved(self, m: MoveView) -> Layout {
        if !self.can_move(m) {
            self
        } else {
            let content = self.dir(m.from)[m.from_name];
            let cleared = self.with_dir(m.to, self.dir(m.to).remove(m.to_name));
            if !cleared.can_move(m) {
                cleared
            } else {
                let taken = cleared.with_dir(m.from, cleared.dir(m.from).remove(m.from_name));
                taken.with_dir(m.to, taken.dir(m.to).insert(m.to_name, content))
            }
        }
    }
}

} // verus!
