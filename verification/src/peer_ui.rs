//! Where the marks showing remote peers go in a buffer: the highlighted range
//! standing for a peer's cursor, the line their handle is shown on, and the
//! highlight group each peer is drawn with.
use vstd::prelude::*;

use crate::numbers::{decimal, push_decimal};
use crate::text::{push_str, string_of};

verus! {

/// A position in a buffer: a line and a byte offset within it.
#[derive(Debug, Clone, Copy, PartialEq, Eq, Structural)]
pub struct Point {
    pub newline_offset: usize,
    pub byte_offset: usize,
}

/// The shape of a buffer: the byte length of each of its lines, and whether
/// the file ends with a newline that is not shown as a line.
#[derive(Debug, Clone)]
pub struct BufferShape {
    pub line_lengths: Vec<usize>,
    pub uneditable_eol: bool,
}

/// The byte offset at which line `i` starts.
pub open spec fn line_start(lens: Seq<usize>, i: nat) -> nat
    decreases i,
{
    if i == 0 {
        0
    } else {
        line_start(lens, (i - 1) as nat) + lens[i - 1] as nat + 1
    }
}

/// The number of bytes of a buffer: its lines, the newlines between them,
/// and the trailing newline if there is one.
pub open spec fn num_bytes(lens: Seq<usize>, eol: bool) -> nat {
    (line_start(lens, lens.len()) - 1 + if eol { 1int } else { 0int }) as nat
}

/// The length of line `i`, with the line after the last one (where the
/// offset after a trailing newline lies) taken as empty.
pub open spec fn line_len(lens: Seq<usize>, i: nat) -> nat {
    if i < lens.len() { lens[i as int] as nat } else { 0 }
}

/// The line holding byte offset `o`: the last line starting at or before it.
pub open spec fn line_of(lens: Seq<usize>, o: nat, i: nat) -> nat
    decreases lens.len() + 1 - i,
{
    if i < lens.len() && line_start(lens, i + 1) <= o {
        line_of(lens, o, i + 1)
    } else {
        i
    }
}

/// The point at byte offset `o`.
pub open spec fn point_of_byte(lens: Seq<usize>, o: nat) -> Point {
    let l = line_of(lens, o, 0);
    Point { newline_offset: l as usize, byte_offset: (o - line_start(lens, l)) as usize }
}

/// The range highlighted to show a remote peer's cursor at byte offset `o`:
/// the byte right after the cursor, or, at the end of a line, up to the
/// start of the next line; after a trailing newline that is not shown, the
/// end of the last line.
pub open spec fn cursor_highlight(lens: Seq<usize>, eol: bool, o: nat) -> (Point, Point) {
    let start = point_of_byte(lens, o);
    let at_eol = line_len(lens, start.newline_offset as nat) == start.byte_offset;
    if at_eol && o == num_bytes(lens, eol) && eol {
        let prev = (start.newline_offset - 1) as nat;
        (Point { newline_offset: prev as usize, byte_offset: line_len(lens, prev) as usize }, start)
    } else if at_eol {
        (start, Point { newline_offset: (start.newline_offset + 1) as usize, byte_offset: 0 })
    } else {
        (start, Point { newline_offset: start.newline_offset, byte_offset: (start.byte_offset + 1) as usize })
    }
}

/// Whether `a` comes strictly before `b`.
pub open spec fn point_lt(a: Point, b: Point) -> bool {
    a.newline_offset < b.newline_offset || (a.newline_offset == b.newline_offset && a.byte_offset < b.byte_offset)
}

impl BufferShape {
    /// A buffer always has at least one line, and its size fits in memory.
    pub open spec fn wf(&self) -> bool {
        &&& self.line_lengths@.len() >= 1
        &&& line_start(self.line_lengths@, self.line_lengths@.len()) + 1 <= usize::MAX
    }
}

proof fn lemma_line_start_mono(lens: Seq<usize>, i: nat, j: nat)
    requires
        i <= j,
    ensures
        line_start(lens, i) + (j - i) <= line_start(lens, j),
    decreases j - i,
{
    if i < j {
        lemma_line_start_mono(lens, i, (j - 1) as nat);
    }
}

proof fn lemma_line_of_bounds(lens: Seq<usize>, o: nat, i: nat)
    requires
        i <= lens.len(),
        line_start(lens, i) <= o,
    ensures
        i <= line_of(lens, o, i) <= lens.len(),
        line_start(lens, line_of(lens, o, i)) <= o,
        line_of(lens, o, i) < lens.len() ==> o < line_start(lens, line_of(lens, o, i) + 1),
    decreases lens.len() + 1 - i,
{
    if i < lens.len() && line_start(lens, i + 1) <= o {
        lemma_line_of_bounds(lens, o, i + 1);
    }
}

/// Finds the point at byte offset `o` of the buffer.
fn point_of_byte_exec(shape: &BufferShape, o: usize) -> (r: Point)
    requires
        shape.wf(),
        o <= num_bytes(shape.line_lengths@, shape.uneditable_eol),
    ensures
        r == point_of_byte(shape.line_lengths@, o as nat),
        r.newline_offset <= shape.line_lengths@.len(),
{
    let ghost lens = shape.line_lengths@;
    let mut i: usize = 0;
    let mut start: usize = 0;
    proof { lemma_line_of_bounds(lens, o as nat, 0); }
    while i < shape.line_lengths.len()
        invariant
            lens == shape.line_lengths@,
            shape.wf(),
            i <= lens.len(),
            start == line_start(lens, i as nat),
            start <= o,
            line_of(lens, o as nat, 0) == line_of(lens, o as nat, i as nat),
        decreases lens.len() - i,
    {
        proof { lemma_line_start_mono(lens, (i + 1) as nat, lens.len()); }
        let next = start + shape.line_lengths[i] + 1;
        if next > o {
            proof { lemma_line_of_bounds(lens, o as nat, i as nat); }
            return Point { newline_offset: i, byte_offset: o - start };
        }
        start = next;
        i += 1;
    }
    Point { newline_offset: i, byte_offset: o - start }
}

/// The length of line `i`, or zero for the line after the last one.
fn line_len_exec(shape: &BufferShape, i: usize) -> (r: usize)
    ensures
        r == line_len(shape.line_lengths@, i as nat),
{
    if i < shape.line_lengths.len() { shape.line_lengths[i] } else { 0 }
}

/// The number of bytes of the buffer.
fn num_bytes_exec(shape: &BufferShape) -> (r: usize)
    requires
        shape.wf(),
    ensures
        r == num_bytes(shape.line_lengths@, shape.uneditable_eol),
{
    let ghost lens = shape.line_lengths@;
    let mut i: usize = 0;
    let mut start: usize = 0;
    while i < shape.line_lengths.len()
        invariant
            lens == shape.line_lengths@,
            shape.wf(),
            i <= lens.len(),
            start == line_start(lens, i as nat),
        decreases lens.len() - i,
    {
        proof { lemma_line_start_mono(lens, (i + 1) as nat, lens.len()); }
        start = start + shape.line_lengths[i] + 1;
        i += 1;
    }
    proof { lemma_line_start_mono(lens, 1, lens.len()); }
    if shape.uneditable_eol { start } else { start - 1 }
}

/// The range to highlight to show a remote peer's cursor at byte offset
/// `cursor_offset`.
pub fn highlight_range(shape: &BufferShape, cursor_offset: usize) -> (r: (Point, Point))
    requires
        shape.wf(),
        cursor_offset <= num_bytes(shape.line_lengths@, shape.uneditable_eol),
    ensures
        r == cursor_highlight(shape.line_lengths@, shape.uneditable_eol, cursor_offset as nat),
        point_lt(r.0, r.1),
{
    let ghost lens = shape.line_lengths@;
    let start = point_of_byte_exec(shape, cursor_offset);
    let total = num_bytes_exec(shape);
    let at_eol = line_len_exec(shape, start.newline_offset) == start.byte_offset;
    proof {
        lemma_line_of_bounds(lens, cursor_offset as nat, 0);
        lemma_line_start_mono(lens, 1, lens.len());
    }
    if at_eol && cursor_offset == total && shape.uneditable_eol {
        proof {
            if start.newline_offset == 0 {
                lemma_line_start_mono(lens, 1, lens.len());
            }
        }
        let prev = start.newline_offset - 1;
        let prev_len = line_len_exec(shape, prev);
        (Point { newline_offset: prev, byte_offset: prev_len }, start)
    } else if at_eol {
        (start, Point { newline_offset: start.newline_offset + 1, byte_offset: 0 })
    } else {
        proof {
            if start.newline_offset as nat == lens.len() {
                assert(line_len(lens, start.newline_offset as nat) == 0);
            }
        }
        (start, Point { newline_offset: start.newline_offset, byte_offset: start.byte_offset + 1 })
    }
}

/// Where a remote peer's handle is shown relative to their cursor.
#[derive(Debug, Clone, Copy, PartialEq, Eq, Structural)]
pub struct HandlePlacement {
    /// The line the handle is shown on (or below, for a virtual line).
    pub line: usize,
    /// The column the handle starts at.
    pub column: usize,
    /// Whether the handle is shown on a virtual line below the only line.
    pub use_virt_lines: bool,
}

/// Places a peer's handle for a cursor at `cursor` in a buffer of `num_rows`
/// lines: on the line above the cursor, else on the line below, else (in a
/// one-line buffer) on a virtual line below; always at the cursor's column.
pub fn handle_placement(cursor: Point, num_rows: usize) -> (r: HandlePlacement)
    requires
        cursor.newline_offset < usize::MAX,
    ensures
        r.line == if cursor.newline_offset > 0 {
            cursor.newline_offset - 1
        } else if num_rows > 1 {
            cursor.newline_offset + 1
        } else {
            0
        },
        r.use_virt_lines == (num_rows == 1),
        r.column == cursor.byte_offset,
{
    let line = if cursor.newline_offset > 0 {
        cursor.newline_offset - 1
    } else if num_rows > 1 {
        cursor.newline_offset + 1
    } else {
        0
    };
    HandlePlacement { line, column: cursor.byte_offset, use_virt_lines: num_rows == 1 }
}

/// The text shown for a peer's handle: the handle with a space on each side.
pub fn handle_label(handle: &str) -> (r: String)
    ensures
        r@ == seq![' '] + handle@ + seq![' '],
{
    let mut cs: Vec<char> = Vec::new();
    cs.push(' ');
    push_str(&mut cs, handle);
    cs.push(' ');
    string_of(cs.as_slice())
}

/// The padding put before a handle on a virtual line so that it lines up
/// with the cursor's column.
pub fn handle_padding(column: usize) -> (r: String)
    ensures
        r@ == Seq::new(column as nat, |_i: int| ' '),
{
    let mut cs: Vec<char> = Vec::new();
    let mut i: usize = 0;
    while i < column
        invariant
            i <= column,
            cs@ == Seq::new(i as nat, |_i: int| ' '),
        decreases column - i,
    {
        cs.push(' ');
        i += 1;
        proof { assert(cs@ =~= Seq::new(i as nat, |_i: int| ' ')); }
    }
    string_of(cs.as_slice())
}

/// The number of highlight groups remote peers are spread over.
pub const NUM_PEER_GROUPS: usize = 16;

/// The highlight group a peer is drawn with: peers are spread over the
/// groups by their ID, starting from ID 1.
pub fn peer_group_index(peer_id: u64, num_groups: usize) -> (r: usize)
    requires
        num_groups > 0,
    ensures
        r as int == (if peer_id == 0 { 0 } else { peer_id - 1 }) as usize as int % num_groups as int,
        r < num_groups,
{
    let zero_based: u64 = if peer_id == 0 { 0 } else { peer_id - 1 };
    (zero_based as usize) % num_groups
}

/// The name of the highlight group at index `group_idx`: the prefix followed
/// by the index counted from one.
pub fn peer_group_name(prefix: &str, group_idx: usize) -> (r: String)
    requires
        group_idx < usize::MAX,
        group_idx + 1 <= u64::MAX,
    ensures
        r@ == prefix@ + decimal((group_idx + 1) as nat),
{
    let mut cs: Vec<char> = Vec::new();
    push_str(&mut cs, prefix);
    push_decimal(&mut cs, (group_idx + 1) as u64);
    string_of(cs.as_slice())
}

/// The prefix of the highlight groups of remote peers' cursors.
pub const PEER_CURSOR_GROUP_PREFIX: &'static str = "NomadCollabPeerCursor";

/// The prefix of the highlight groups of remote peers' handles.
pub const PEER_HANDLE_GROUP_PREFIX: &'static str = "NomadCollabPeerHandle";

/// The prefix of the highlight groups of remote peers' selections.
pub const PEER_SELECTION_GROUP_PREFIX: &'static str = "NomadCollabPeerSelection";


/// The highlight of a remote peer's selection in a buffer: the selected
/// byte range, drawn with the peer's selection highlight group.
#[derive(Debug, Clone, Copy, PartialEq, Eq, Structural)]
pub struct NeovimPeerSelection {
    /// The ID of the peer whose selection this is.
    pub peer_id: u64,
    /// The index of the highlight group the selection is drawn with.
    pub group_idx: usize,
    /// The first byte of the selection.
    pub start: usize,
    /// The byte after the last of the selection.
    pub end: usize,
}

impl NeovimPeerSelection {
    /// The highlight of the selection of `peer_id` over `start..end`.
    pub fn create(peer_id: u64, start: usize, end: usize) -> (r: NeovimPeerSelection)
        ensures
            r.peer_id == peer_id,
            r.group_idx as int == (if peer_id == 0 { 0 } else { peer_id - 1 }) as usize as int % NUM_PEER_GROUPS as int,
            r.start == start,
            r.end == end,
    {
        NeovimPeerSelection { peer_id, group_idx: peer_group_index(peer_id, NUM_PEER_GROUPS), start, end }
    }

    /// Moves the highlight over `start..end`.
    pub fn move_to(&mut self, start: usize, end: usize)
        ensures
            *final(self) == (NeovimPeerSelection { start, end, ..*old(self) }),
    {
        self.start = start;
        self.end = end;
    }
}
}
