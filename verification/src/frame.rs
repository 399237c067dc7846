//! The frame that is drawn for one build: what it holds, and the terminal
//! commands that draw it.

use vstd::prelude::*;
use vstd::slice::slice_to_vec;
use vstd::string::{StrSliceExecFns, StringExecFns};
use vstd::utf8::encode_utf8;
use crate::change::{ChangeSet, LIST_SEPARATOR};
use crate::config::{Config, ConfigView};
use crate::output::{first_block_ends, selected_stream, shown_bytes, BuildResult};
use crate::text::{join, joined};

verus! {

/// What one frame shows: the header line, the line of changed paths where a
/// change set started the build, and the body, which holds what the build
/// wrote as bytes.
#[derive(Debug, PartialEq, Eq)]
pub struct DisplayFrame {
    pub header: String,
    pub changed: Option<String>,
    pub body: Vec<u8>,
}

/// A frame, with its texts and bytes as values.
pub struct FrameView {
    pub header: Seq<char>,
    pub changed: Option<Seq<char>>,
    pub body: Seq<u8>,
}

impl View for DisplayFrame {
    type V = FrameView;

    open spec fn view(&self) -> FrameView {
        FrameView {
            header: self.header@,
            changed: match self.changed {
                Some(line) => Some(line@),
                None => None,
            },
            body: self.body@,
        }
    }
}

/// The header line: the main target and the watched paths.
pub open spec fn header_line(main: Seq<char>, paths: Seq<Seq<char>>) -> Seq<char> {
    "Main: "@ + main + ". Path(s): "@ + joined(paths, LIST_SEPARATOR@) + "\n"@
}

/// The line that lists the changed paths.
pub open spec fn changed_line(changes: Seq<Seq<char>>) -> Seq<char> {
    "Changed: "@ + joined(changes, LIST_SEPARATOR@) + "\n"@
}

/// The frame for a build that `changes` started (none for the first build)
/// and that wrote the two streams.
pub open spec fn frame_of(
    config: ConfigView,
    changes: Option<Seq<Seq<char>>>,
    stdout: Seq<u8>,
    stderr: Seq<u8>,
) -> FrameView {
    FrameView {
        header: header_line(config.main, config.paths),
        changed: match changes {
            Some(list) => Some(changed_line(list)),
            None => None,
        },
        body: shown_bytes(stdout, stderr, config.single),
    }
}

/// The paths of a change set, where there is one.
pub open spec fn changes_view(changes: Option<ChangeSet>) -> Option<Seq<Seq<char>>> {
    match changes {
        Some(set) => Some(set@),
        None => None,
    }
}

/// Makes the frame for one build. Its body is the selected stream byte for
/// byte, cut to the first block in single mode.
pub fn render(config: &Config, changes: &Option<ChangeSet>, result: &BuildResult) -> (frame:
    DisplayFrame)
    ensures
        frame@ == frame_of(config@, changes_view(*changes), result.stdout@, result.stderr@),
        !config@.single ==> frame.body@ == selected_stream(result.stdout@, result.stderr@),
        config@.single ==> frame.body@ == selected_stream(result.stdout@, result.stderr@).take(
            frame.body@.len() as int,
        ) && first_block_ends(
            selected_stream(result.stdout@, result.stderr@),
            frame.body@.len() as int,
        ),
{
    let mut header = String::from_str("Main: ");
    header.append(config.main().as_str());
    header.append(". Path(s): ");
    header.append(join(config.paths(), LIST_SEPARATOR).as_str());
    header.append("\n");
    let changed = match changes {
        Some(set) => {
            let mut line = String::from_str("Changed: ");
            line.append(set.summary().as_str());
            line.append("\n");
            Some(line)
        },
        None => None,
    };
    DisplayFrame { header, changed, body: result.shown(config.single()) }
}

/// One command to the terminal.
#[derive(Debug, PartialEq, Eq)]
pub enum TerminalCommand {
    /// Clear the whole terminal.
    ClearAll,
    /// Move the cursor.
    MoveTo { column: u16, row: u16 },
    /// Write the bytes.
    Write(Vec<u8>),
    /// Flush what was written.
    Flush,
}

/// A terminal command, with its bytes as a value.
pub enum TerminalCommandView {
    ClearAll,
    MoveTo { column: u16, row: u16 },
    Write(Seq<u8>),
    Flush,
}

impl View for TerminalCommand {
    type V = TerminalCommandView;

    open spec fn view(&self) -> TerminalCommandView {
        match self {
            TerminalCommand::ClearAll => TerminalCommandView::ClearAll,
            TerminalCommand::MoveTo { column, row } => TerminalCommandView::MoveTo {
                column: *column,
                row: *row,
            },
            TerminalCommand::Write(bytes) => TerminalCommandView::Write(bytes@),
            TerminalCommand::Flush => TerminalCommandView::Flush,
        }
    }
}

/// The commands of a sequence, as values.
pub open spec fn commands_view(commands: Seq<TerminalCommand>) -> Seq<TerminalCommandView> {
    commands.map_values(|command: TerminalCommand| command@)
}

/// The bytes that one command writes.
pub open spec fn written_by(command: TerminalCommandView) -> Seq<u8> {
    match command {
        TerminalCommandView::Write(bytes) => bytes,
        _ => Seq::empty(),
    }
}

/// The bytes that the commands write, in order.
pub open spec fn written(commands: Seq<TerminalCommandView>) -> Seq<u8>
    decreases commands.len(),
{
    if commands.len() == 0 {
        Seq::empty()
    } else {
        written(commands.drop_last()) + written_by(commands.last())
    }
}

impl FrameView {
    /// The commands that draw the frame in place of whatever was shown:
    /// clear, cursor to the origin, the header, the changed line where there
    /// is one, the body, flush. The two lines are written in UTF-8, the body
    /// as it is.
    pub open spec fn commands(self) -> Seq<TerminalCommandView> {
        let start = seq![
            TerminalCommandView::ClearAll,
            TerminalCommandView::MoveTo { column: 0, row: 0 },
            TerminalCommandView::Write(encode_utf8(self.header)),
        ];
        let middle = match self.changed {
            Some(line) => seq![TerminalCommandView::Write(encode_utf8(line))],
            None => Seq::empty(),
        };
        start + middle + seq![TerminalCommandView::Write(self.body), TerminalCommandView::Flush]
    }

    /// Everything that the frame writes: the header, the changed line where
    /// there is one, and the body.
    pub open spec fn bytes(self) -> Seq<u8> {
        match self.changed {
            Some(line) => encode_utf8(self.header) + encode_utf8(line) + self.body,
            None => encode_utf8(self.header) + self.body,
        }
    }
}

/// What the commands of a frame write is the header, the changed line where
/// there is one, and then the body, byte for byte.
pub proof fn lemma_frame_written(frame: FrameView)
    ensures
        written(frame.commands()) == frame.bytes(),
{
    reveal_with_fuel(written, 8);
    assert(written(frame.commands()) =~= frame.bytes());
}

impl DisplayFrame {
    /// The commands that draw the frame.
    pub fn commands(&self) -> (commands: Vec<TerminalCommand>)
        ensures
            commands_view(commands@) == self@.commands(),
            written(commands_view(commands@)) == self@.bytes(),
    {
        let mut commands: Vec<TerminalCommand> = Vec::new();
        commands.push(TerminalCommand::ClearAll);
        commands.push(TerminalCommand::MoveTo { column: 0, row: 0 });
        commands.push(TerminalCommand::Write(self.header.as_str().as_bytes_vec()));
        match &self.changed {
            Some(line) => {
                commands.push(TerminalCommand::Write(line.as_str().as_bytes_vec()));
            },
            None => {},
        }
        commands.push(TerminalCommand::Write(slice_to_vec(self.body.as_slice())));
        commands.push(TerminalCommand::Flush);
        proof {
            assert(commands_view(commands@) =~= self@.commands());
            lemma_frame_written(self@);
        }
        commands
    }
}

} // verus!
