//! The build command, what one run of it produced, and which part of that is
//! shown. What a build wrote is kept as bytes and shown as it is.

use vstd::prelude::*;
use vstd::slice::{slice_subrange, slice_to_vec};
use vstd::string::StringExecFns;
use crate::text::texts;

verus! {

/// The program that builds the main target.
pub const BUILD_TOOL: &'static str = "elm";

/// The subcommand handed to the build tool.
pub const BUILD_SUBCOMMAND: &'static str = "make";

/// The option by which the build writes no artifact.
pub const DISCARD_OUTPUT: &'static str = "--output=/dev/null";

/// A program and the arguments it is started with.
#[derive(Debug, PartialEq, Eq)]
pub struct BuildCommand {
    pub program: String,
    pub args: Vec<String>,
}

/// A command, with its texts as values.
pub struct CommandView {
    pub program: Seq<char>,
    pub args: Seq<Seq<char>>,
}

impl View for BuildCommand {
    type V = CommandView;

    open spec fn view(&self) -> CommandView {
        CommandView { program: self.program@, args: texts(self.args@) }
    }
}

/// The command that builds `main`: the build tool with its subcommand, the
/// main target as the one positional input, and the option that discards the
/// artifact.
pub open spec fn build_of(main: Seq<char>) -> CommandView {
    CommandView { program: BUILD_TOOL@, args: seq![BUILD_SUBCOMMAND@, main, DISCARD_OUTPUT@] }
}

/// The command that builds `main`.
pub fn build_command(main: &str) -> (command: BuildCommand)
    ensures
        command@ == build_of(main@),
{
    let mut args: Vec<String> = Vec::new();
    args.push(String::from_str(BUILD_SUBCOMMAND));
    args.push(String::from_str(main));
    args.push(String::from_str(DISCARD_OUTPUT));
    assert(texts(args@) =~= build_of(main@).args);
    BuildCommand { program: String::from_str(BUILD_TOOL), args }
}

/// The two streams that one run of the build command wrote.
#[derive(Debug, PartialEq, Eq)]
pub struct BuildResult {
    pub stdout: Vec<u8>,
    pub stderr: Vec<u8>,
}

/// The bytes shown for a build: the error stream when it holds anything,
/// the standard stream otherwise.
pub open spec fn selected_stream(stdout: Seq<u8>, stderr: Seq<u8>) -> Seq<u8> {
    if stderr.len() == 0 {
        stdout
    } else {
        stderr
    }
}

impl BuildResult {
    /// The stream that is shown.
    pub fn selected(&self) -> (stream: &Vec<u8>)
        ensures
            stream@ == selected_stream(self.stdout@, self.stderr@),
    {
        if self.stderr.len() == 0 {
            &self.stdout
        } else {
            &self.stderr
        }
    }
}

/// The byte of a line break.
pub const LINE_BREAK: u8 = 0x0A;

/// Three line breaks in a row begin at position `i` of the bytes.
pub open spec fn separator_at(bytes: Seq<u8>, i: int) -> bool {
    &&& 0 <= i
    &&& i + 3 <= bytes.len()
    &&& bytes[i] == LINE_BREAK
    &&& bytes[i + 1] == LINE_BREAK
    &&& bytes[i + 2] == LINE_BREAK
}

/// `n` is where the first block of the bytes ends: at the first separator, or
/// at the end of bytes that hold none.
pub open spec fn first_block_ends(bytes: Seq<u8>, n: int) -> bool {
    &&& 0 <= n <= bytes.len()
    &&& forall|i: int| 0 <= i < n ==> !separator_at(bytes, i)
    &&& n < bytes.len() ==> separator_at(bytes, n)
}

/// The length of the first block.
pub open spec fn first_block_len(bytes: Seq<u8>) -> int {
    choose|n: int| first_block_ends(bytes, n)
}

/// The bytes before the first separator; all of them where there is none.
pub open spec fn first_block_of(bytes: Seq<u8>) -> Seq<u8> {
    bytes.take(first_block_len(bytes))
}

/// Where no separator begins before position `k`, the first block ends
/// somewhere.
proof fn lemma_first_block_ends_from(bytes: Seq<u8>, k: int)
    requires
        0 <= k <= bytes.len(),
        forall|i: int| 0 <= i < k ==> !separator_at(bytes, i),
    ensures
        exists|n: int| first_block_ends(bytes, n),
    decreases bytes.len() - k,
{
    if k == bytes.len() || separator_at(bytes, k) {
        assert(first_block_ends(bytes, k));
    } else {
        lemma_first_block_ends_from(bytes, k + 1);
    }
}

/// Every sequence of bytes has a first block: its length is a place where
/// the first block ends.
pub proof fn lemma_first_block_exists(bytes: Seq<u8>)
    ensures
        first_block_ends(bytes, first_block_len(bytes)),
        first_block_of(bytes).len() == first_block_len(bytes),
{
    lemma_first_block_ends_from(bytes, 0);
}

/// And it has one only: the place where the first block ends is unique.
pub proof fn lemma_first_block_unique(bytes: Seq<u8>, n: int)
    requires
        first_block_ends(bytes, n),
    ensures
        first_block_len(bytes) == n,
        first_block_of(bytes) == bytes.take(n),
{
    let m = first_block_len(bytes);
    if m < n {
        assert(separator_at(bytes, m));
    } else if n < m {
        assert(separator_at(bytes, n));
    }
}

/// Cuts the bytes before their first run of three line breaks.
pub fn first_block<'a>(bytes: &'a [u8]) -> (block: &'a [u8])
    ensures
        block@ == first_block_of(bytes@),
        block@ == bytes@.take(block@.len() as int),
        first_block_ends(bytes@, block@.len() as int),
{
    let mut seen: usize = 0;
    let mut run: usize = 0;
    while seen < bytes.len()
        invariant
            seen <= bytes@.len(),
            run <= 2,
            run <= seen,
            forall|j: int| seen - run <= j < seen ==> bytes@[j] == LINE_BREAK,
            run < seen ==> bytes@[seen - run - 1] != LINE_BREAK,
            forall|i: int| 0 <= i && i + 3 <= seen ==> !separator_at(bytes@, i),
        decreases bytes@.len() - seen,
    {
        if bytes[seen] != LINE_BREAK {
            run = 0;
        } else if run == 2 {
            proof {
                assert(separator_at(bytes@, seen - 2));
                lemma_first_block_unique(bytes@, seen - 2);
            }
            return slice_subrange(bytes, 0, seen - 2);
        } else {
            run += 1;
        }
        seen += 1;
    }
    proof {
        lemma_first_block_unique(bytes@, seen as int);
        assert(bytes@.take(seen as int) =~= bytes@);
    }
    bytes
}

/// The bytes shown for a build: the selected stream, cut to its first block
/// in single mode.
pub open spec fn shown_bytes(stdout: Seq<u8>, stderr: Seq<u8>, single: bool) -> Seq<u8> {
    let selected = selected_stream(stdout, stderr);
    if single {
        first_block_of(selected)
    } else {
        selected
    }
}

/// Whatever the error stream holds is shown alone: where it is not empty,
/// what is shown is made of it and does not depend on the standard stream.
pub proof fn lemma_error_stream_shown_alone(
    stdout: Seq<u8>,
    other: Seq<u8>,
    stderr: Seq<u8>,
    single: bool,
)
    requires
        stderr.len() > 0,
    ensures
        shown_bytes(stdout, stderr, false) == stderr,
        shown_bytes(stdout, stderr, true) == first_block_of(stderr),
        shown_bytes(stdout, stderr, single) == shown_bytes(other, stderr, single),
{
}

impl BuildResult {
    /// What is shown of the build: the selected stream byte for byte, and in
    /// single mode its first block only.
    pub fn shown(&self, single: bool) -> (body: Vec<u8>)
        ensures
            body@ == shown_bytes(self.stdout@, self.stderr@, single),
            !single ==> body@ == selected_stream(self.stdout@, self.stderr@),
            single ==> body@ == selected_stream(self.stdout@, self.stderr@).take(body@.len() as int)
                && first_block_ends(
                selected_stream(self.stdout@, self.stderr@),
                body@.len() as int,
            ),
    {
        let selected = self.selected().as_slice();
        if single {
            slice_to_vec(first_block(selected))
        } else {
            slice_to_vec(selected)
        }
    }
}

} // verus!
