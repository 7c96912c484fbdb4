//! The file being generated. Blank lines between sections, and blocks around them, appear only
//! where something is written.

use vstd::prelude::*;

use crate::includes::{Includes, IncludesView};
use crate::text::{concat, text_if, views};

verus! {

/// One step in the making of a file.
pub enum Piece {
    /// Characters to write.
    Text(Seq<char>),
    /// The start of a section.
    Section,
    /// The start of a block.
    Open(Seq<char>),
    /// The end of a block.
    Close(Seq<char>),
}

/// A text to write, alone.
pub open spec fn text(text: Seq<char>) -> Seq<Piece> {
    seq![Piece::Text(text)]
}

/// The start of a section, alone.
pub open spec fn section() -> Seq<Piece> {
    seq![Piece::Section]
}

/// The start of a block, alone.
pub open spec fn open(block: Seq<char>) -> Seq<Piece> {
    seq![Piece::Open(block)]
}

/// The end of a block, alone.
pub open spec fn close(block: Seq<char>) -> Seq<Piece> {
    seq![Piece::Close(block)]
}

/// `pieces` where `condition` holds, nothing otherwise.
pub open spec fn pieces_if(condition: bool, pieces: Seq<Piece>) -> Seq<Piece> {
    if condition {
        pieces
    } else {
        Seq::empty()
    }
}

/// What a generated file says so far, and what it owes before the next character.
#[verifier::ext_equal]
pub struct OutView {
    /// The C++ namespace of the bridge, outermost first.
    pub namespace: Seq<Seq<char>>,
    /// Whether the file is a header.
    pub header: bool,
    /// The characters written.
    pub content: Seq<char>,
    /// Whether a section has started in which nothing is written yet.
    pub section_pending: bool,
    /// The blocks that have started and in which nothing is written yet.
    pub blocks_pending: Seq<Seq<char>>,
}

/// The lines that open the given blocks.
pub open spec fn block_starts(blocks: Seq<Seq<char>>) -> Seq<char>
    decreases blocks.len(),
{
    if blocks.len() == 0 {
        Seq::empty()
    } else {
        block_starts(blocks.drop_last()) + blocks.last() + " {\n"@
    }
}

impl OutView {
    /// A file in which nothing is written.
    pub open spec fn fresh(namespace: Seq<Seq<char>>, header: bool) -> OutView {
        OutView {
            namespace,
            header,
            content: Seq::empty(),
            section_pending: false,
            blocks_pending: Seq::empty(),
        }
    }

    /// What the file owes before the next character: a blank line where a section or a block
    /// starts after something else, and the lines that open the blocks that have started.
    pub open spec fn owed(self) -> Seq<char> {
        if self.content.len() > 0 && (self.section_pending || self.blocks_pending.len() > 0) {
            "\n"@ + block_starts(self.blocks_pending)
        } else {
            block_starts(self.blocks_pending)
        }
    }

    /// The file after `text` is written; to write nothing changes nothing.
    #[verifier::opaque]
    pub open spec fn write(self, text: Seq<char>) -> OutView {
        if text.len() == 0 {
            self
        } else {
            OutView {
                content: self.content + self.owed() + text,
                section_pending: false,
                blocks_pending: Seq::empty(),
                ..self
            }
        }
    }

    /// The file after the start of a section.
    pub open spec fn next_section(self) -> OutView {
        OutView { section_pending: true, ..self }
    }

    /// The file after the start of a block.
    pub open spec fn begin_block(self, block: Seq<char>) -> OutView {
        OutView { blocks_pending: self.blocks_pending.push(block), ..self }
    }

    /// The file after the end of a block: a block in which nothing was written leaves no trace.
    pub open spec fn end_block(self, block: Seq<char>) -> OutView {
        if self.blocks_pending.len() > 0 {
            OutView { blocks_pending: self.blocks_pending.drop_last(), ..self }
        } else {
            OutView {
                content: self.content + "} // "@ + block + "\n"@,
                section_pending: true,
                ..self
            }
        }
    }

    /// The file with `text` in front of everything else.
    pub open spec fn prepend(self, text: Seq<char>) -> OutView {
        OutView { content: text + self.content, ..self }
    }

    /// The file after one piece.
    pub open spec fn step(self, piece: Piece) -> OutView {
        match piece {
            Piece::Text(text) => self.write(text),
            Piece::Section => self.next_section(),
            Piece::Open(block) => self.begin_block(block),
            Piece::Close(block) => self.end_block(block),
        }
    }

    /// The file after the given pieces.
    #[verifier::opaque]
    pub open spec fn emit(self, pieces: Seq<Piece>) -> OutView
        decreases pieces.len(),
    {
        if pieces.len() == 0 {
            self
        } else {
            self.emit(pieces.drop_last()).step(pieces.last())
        }
    }
}

/// The text of a file made of the given pieces.
pub open spec fn render(pieces: Seq<Piece>) -> Seq<char> {
    OutView::fresh(Seq::empty(), false).emit(pieces).content
}

/// A text may be written in two parts.
pub proof fn law_write_in_parts(file: OutView, a: Seq<char>, b: Seq<char>)
    ensures
        file.write(a).write(b) == file.write(a + b),
{
    reveal(OutView::write);
    if a.len() == 0 {
        assert(a + b =~= b);
    } else if b.len() == 0 {
        assert(a + b =~= a);
    } else {
        let mid = file.write(a);
        assert(mid.owed() =~= Seq::<char>::empty());
        assert(mid.write(b).content =~= file.write(a + b).content);
    }
}

/// Marks a file from which a proof counts what is written.
pub open spec fn base(file: OutView) -> bool {
    true
}

/// What is written after a base, in one text.
pub broadcast proof fn lemma_write_after_base(file: OutView, a: Seq<char>, b: Seq<char>)
    ensures
        #![trigger base(file), file.write(a).write(b)]
        file.write(a).write(b) == file.write(a + b),
{
    law_write_in_parts(file, a, b);
}

/// To write nothing changes nothing.
pub proof fn lemma_write_nothing(file: OutView)
    ensures
        file.write(Seq::empty()) == file,
{
    reveal(OutView::write);
}

/// To write changes neither the namespace nor the kind of the file.
pub broadcast proof fn lemma_write_keeps(file: OutView, text: Seq<char>)
    ensures
        (#[trigger] file.write(text)).namespace == file.namespace,
        file.write(text).header == file.header,
{
    reveal(OutView::write);
}

/// How a sequence of writes adds up.
pub broadcast group group_write {
    lemma_write_after_base,
    lemma_write_keeps,
    crate::text::lemma_empty_left,
    crate::text::lemma_empty_right,
}

/// Pieces may be emitted in two groups.
pub proof fn law_emit_in_groups(file: OutView, a: Seq<Piece>, b: Seq<Piece>)
    ensures
        file.emit(a).emit(b) == file.emit(a + b),
    decreases b.len(),
{
    reveal(OutView::emit);
    if b.len() == 0 {
        assert(a + b =~= a);
    } else {
        law_emit_in_groups(file, a, b.drop_last());
        assert((a + b).drop_last() =~= a + b.drop_last());
        assert((a + b).last() == b.last());
    }
}

/// What is written does not depend on the namespace and the kind of the file.
pub proof fn lemma_emit_content(file: OutView, pieces: Seq<Piece>)
    requires
        file == OutView::fresh(file.namespace, file.header),
    ensures
        file.emit(pieces).content == render(pieces),
{
    lemma_emit_same(file, OutView::fresh(Seq::empty(), false), pieces);
}

proof fn lemma_emit_same(a: OutView, b: OutView, pieces: Seq<Piece>)
    requires
        a.content == b.content,
        a.section_pending == b.section_pending,
        a.blocks_pending == b.blocks_pending,
    ensures
        a.emit(pieces).content == b.emit(pieces).content,
        a.emit(pieces).section_pending == b.emit(pieces).section_pending,
        a.emit(pieces).blocks_pending == b.emit(pieces).blocks_pending,
    decreases pieces.len(),
{
    reveal(OutView::emit);
    reveal(OutView::write);
    if pieces.len() > 0 {
        lemma_emit_same(a, b, pieces.drop_last());
    }
}

/// To emit nothing changes nothing.
pub proof fn lemma_emit_nothing(file: OutView)
    ensures
        file.emit(Seq::empty()) == file,
{
    reveal(OutView::emit);
}

/// One piece is one step.
pub proof fn lemma_emit_one(file: OutView, piece: Piece)
    ensures
        file.emit(seq![piece]) == file.step(piece),
{
    reveal(OutView::emit);
    assert(seq![piece].drop_last() =~= Seq::<Piece>::empty());
    reveal_with_fuel(OutView::emit, 2);
}

/// What is emitted after a base, in one sequence of pieces.
pub broadcast proof fn lemma_emit_after_base(file: OutView, a: Seq<Piece>, b: Seq<Piece>)
    ensures
        #![trigger base(file), file.emit(a).emit(b)]
        file.emit(a).emit(b) == file.emit(a + b),
{
    law_emit_in_groups(file, a, b);
}

/// A text as a piece.
pub broadcast proof fn lemma_emit_text(file: OutView, s: Seq<char>)
    ensures
        #[trigger] file.write(s) == file.emit(text(s)),
{
    lemma_emit_one(file, Piece::Text(s));
}

/// The start of a section as a piece.
pub broadcast proof fn lemma_emit_section(file: OutView)
    ensures
        #[trigger] file.next_section() == file.emit(section()),
{
    lemma_emit_one(file, Piece::Section);
}

/// The start of a block as a piece.
pub broadcast proof fn lemma_emit_open(file: OutView, block: Seq<char>)
    ensures
        #[trigger] file.begin_block(block) == file.emit(open(block)),
{
    lemma_emit_one(file, Piece::Open(block));
}

/// The end of a block as a piece.
pub broadcast proof fn lemma_emit_close(file: OutView, block: Seq<char>)
    ensures
        #[trigger] file.end_block(block) == file.emit(close(block)),
{
    lemma_emit_one(file, Piece::Close(block));
}

/// Pieces change neither the namespace nor the kind of the file.
pub broadcast proof fn lemma_emit_keeps(file: OutView, pieces: Seq<Piece>)
    ensures
        (#[trigger] file.emit(pieces)).namespace == file.namespace,
        file.emit(pieces).header == file.header,
    decreases pieces.len(),
{
    reveal(OutView::emit);
    if pieces.len() > 0 {
        lemma_emit_keeps(file, pieces.drop_last());
        reveal(OutView::write);
    }
}

/// How a sequence of steps adds up.
pub broadcast group group_emit {
    lemma_emit_after_base,
    lemma_emit_text,
    lemma_emit_section,
    lemma_emit_open,
    lemma_emit_close,
    lemma_emit_keeps,
}

/// A block in which nothing is written leaves no trace.
pub proof fn law_empty_block(file: OutView, block: Seq<char>, end: Seq<char>)
    ensures
        file.begin_block(block).end_block(end) == file,
{
    assert(file.blocks_pending.push(block).drop_last() =~= file.blocks_pending);
}

/// What is written first stands at the very start of the file.
pub proof fn law_first_text(file: OutView, s: Seq<char>)
    requires
        file.content.len() == 0,
        file.blocks_pending.len() == 0,
    ensures
        file.write(s).content == s,
{
    reveal(OutView::write);
    assert(file.write(s).content =~= s);
}

/// A section is set off by one line feed from what is written before it.
pub proof fn law_section_break(file: OutView, s: Seq<char>)
    requires
        file.content.len() > 0,
        file.blocks_pending.len() == 0,
        s.len() > 0,
    ensures
        file.next_section().write(s).content == file.content + "\n"@ + s,
{
    reveal(OutView::write);
    assert(file.next_section().write(s).content =~= file.content + "\n"@ + s);
}

/// What is written in a block stands between its start and its end.
pub proof fn law_block_around_text(
    file: OutView,
    block: Seq<char>,
    s: Seq<char>,
    end: Seq<char>,
)
    requires
        file.blocks_pending.len() == 0,
        s.len() > 0,
    ensures
        file.begin_block(block).write(s).end_block(end).content == file.content + text_if(
            file.content.len() > 0,
            "\n"@,
        ) + block + " {\n"@ + s + "} // "@ + end + "\n"@,
{
    reveal(OutView::write);
    let inside = file.begin_block(block);
    reveal_with_fuel(block_starts, 2);
    assert(inside.blocks_pending.drop_last() =~= Seq::empty());
    assert(block_starts(inside.blocks_pending) =~= block + " {\n"@);
    assert(file.begin_block(block).write(s).end_block(end).content =~= file.content + text_if(
        file.content.len() > 0,
        "\n"@,
    ) + block + " {\n"@ + s + "} // "@ + end + "\n"@);
}

proof fn lemma_block_starts(blocks: Seq<Seq<char>>)
    ensures
        block_starts(blocks) == concat(blocks.map_values(|block: Seq<char>| block + " {\n"@)),
    decreases blocks.len(),
{
    let starts = blocks.map_values(|block: Seq<char>| block + " {\n"@);
    if blocks.len() > 0 {
        lemma_block_starts(blocks.drop_last());
        assert(starts.drop_last() =~= blocks.drop_last().map_values(
            |block: Seq<char>| block + " {\n"@,
        ));
        assert(block_starts(blocks) =~= concat(starts));
    }
}

/// Before a text stand a blank line, if a section or a block has started behind something else,
/// and the starts of all blocks that have started, outermost first. Nothing is owed after it.
pub proof fn law_text_pays_what_is_owed(file: OutView, s: Seq<char>)
    requires
        s.len() > 0,
    ensures
        file.write(s).content == file.content + (if file.content.len() > 0 && (
        file.section_pending || file.blocks_pending.len() > 0) {
            "\n"@
        } else {
            Seq::empty()
        }) + concat(file.blocks_pending.map_values(|block: Seq<char>| block + " {\n"@)) + s,
        !file.write(s).section_pending,
        file.write(s).blocks_pending.len() == 0,
        file.write(Seq::empty()) == file,
{
    reveal(OutView::write);
    lemma_block_starts(file.blocks_pending);
    assert(file.write(s).content =~= file.content + (if file.content.len() > 0 && (
    file.section_pending || file.blocks_pending.len() > 0) {
        "\n"@
    } else {
        Seq::empty()
    }) + concat(file.blocks_pending.map_values(|block: Seq<char>| block + " {\n"@)) + s);
}

/// In a new file nothing is written and nothing is owed.
pub proof fn law_new_files_are_empty(namespace: Seq<Seq<char>>, header: bool)
    ensures
        ({
            let file = OutView::fresh(namespace, header);
            &&& file.namespace == namespace
            &&& file.header == header
            &&& file.content.len() == 0
            &&& !file.section_pending
            &&& file.blocks_pending.len() == 0
        }),
{
}

/// The end of a block in which something is written is a line of its own, and what follows is set
/// off from it as a section is. The start of a block or a section writes nothing yet.
pub proof fn law_blocks_and_sections(file: OutView, block: Seq<char>)
    ensures
        file.blocks_pending.len() == 0 ==> {
            &&& file.end_block(block).content == file.content + "} // "@ + block + "\n"@
            &&& file.end_block(block).section_pending
            &&& file.end_block(block).blocks_pending.len() == 0
        },
        file.begin_block(block).content == file.content,
        file.begin_block(block).section_pending == file.section_pending,
        file.begin_block(block).blocks_pending == file.blocks_pending.push(block),
        file.next_section().section_pending,
        file.next_section().blocks_pending == file.blocks_pending,
        file.prepend(block).content == block + file.content,
{
}

/// To emit pieces is to take the steps that they stand for, one after the other.
pub proof fn law_pieces_are_steps(file: OutView, pieces: Seq<Piece>, s: Seq<char>)
    ensures
        file.emit(Seq::empty()) == file,
        file.emit(pieces.push(Piece::Text(s))) == file.emit(pieces).write(s),
        file.emit(pieces.push(Piece::Section)) == file.emit(pieces).next_section(),
        file.emit(pieces.push(Piece::Open(s))) == file.emit(pieces).begin_block(s),
        file.emit(pieces.push(Piece::Close(s))) == file.emit(pieces).end_block(s),
        render(pieces) == (OutView {
            namespace: Seq::empty(),
            header: false,
            content: Seq::empty(),
            section_pending: false,
            blocks_pending: Seq::empty(),
        }).emit(pieces).content,
{
    reveal(OutView::emit);
    assert(pieces.push(Piece::Text(s)).drop_last() =~= pieces);
    assert(pieces.push(Piece::Section).drop_last() =~= pieces);
    assert(pieces.push(Piece::Open(s)).drop_last() =~= pieces);
    assert(pieces.push(Piece::Close(s)).drop_last() =~= pieces);
}

/// The start of a section says no more the second time, and writes nothing by itself.
pub proof fn law_empty_section(file: OutView)
    ensures
        file.next_section().next_section() == file.next_section(),
        file.next_section().content == file.content,
{
}

/// The file being generated.
#[derive(Debug)]
pub struct OutFile {
    pub namespace: Vec<String>,
    pub header: bool,
    pub includes: Includes,
    pub content: String,
    pub section_pending: bool,
    pub blocks_pending: Vec<&'static str>,
}

impl View for OutFile {
    type V = OutView;

    open spec fn view(&self) -> OutView {
        OutView {
            namespace: views(self.namespace@),
            header: self.header,
            content: self.content@,
            section_pending: self.section_pending,
            blocks_pending: Seq::new(
                self.blocks_pending@.len(),
                |i: int| self.blocks_pending@[i]@,
            ),
        }
    }
}

impl OutFile {
    /// A file in which nothing is written.
    pub fn new(namespace: Vec<String>, header: bool) -> (out: OutFile)
        ensures
            out@ == OutView::fresh(views(namespace@), header),
            out.includes@ == IncludesView::none(),
    {
        let out = OutFile {
            namespace,
            header,
            includes: Includes::new(),
            content: String::new(),
            section_pending: false,
            blocks_pending: Vec::new(),
        };
        proof {
            assert(out@ =~= OutView::fresh(views(namespace@), header));
        }
        out
    }

    /// The characters written.
    pub fn content(&self) -> (res: &str)
        ensures
            res@ == self@.content,
    {
        self.content.as_str()
    }

    /// Starts a section: a blank line comes before what is written next.
    pub fn next_section(&mut self)
        ensures
            final(self)@ == old(self)@.next_section(),
            final(self).includes == old(self).includes,
    {
        self.section_pending = true;
    }

    /// Starts a block.
    pub fn begin_block(&mut self, block: &'static str)
        ensures
            final(self)@ == old(self)@.begin_block(block@),
            final(self).includes == old(self).includes,
    {
        self.blocks_pending.push(block);
        proof {
            assert(self@.blocks_pending =~= old(self)@.blocks_pending.push(block@));
        }
    }

    /// Ends a block.
    pub fn end_block(&mut self, block: &'static str)
        ensures
            final(self)@ == old(self)@.end_block(block@),
            final(self).includes == old(self).includes,
    {
        if self.blocks_pending.pop().is_none() {
            self.content.append("} // ");
            self.content.append(block);
            self.content.append("\n");
            self.section_pending = true;
            proof {
                assert(self@.blocks_pending =~= old(self)@.blocks_pending);
            }
        } else {
            proof {
                assert(self@.blocks_pending
                    =~= old(self)@.blocks_pending.drop_last());
            }
        }
    }

    /// Puts a text in front of everything else.
    pub fn prepend(&mut self, section: String)
        ensures
            final(self)@ == old(self)@.prepend(section@),
            final(self).includes == old(self).includes,
    {
        self.content = section.concat(self.content.as_str());
    }

    /// Writes a text.
    pub fn write_str(&mut self, s: &str)
        ensures
            final(self)@ == old(self)@.write(s@),
            final(self).includes == old(self).includes,
    {
        reveal(OutView::write);
        if s.is_empty() {
            return;
        }
        if self.blocks_pending.len() > 0 || self.section_pending {
            let empty = self.content.as_str().is_empty();
            if !empty {
                self.content.append("\n");
            }
            let ghost start = self.content@;
            let ghost blocks = self@.blocks_pending;
            proof {
                assert(blocks.take(0) =~= Seq::<Seq<char>>::empty());
                assert(self.content@ =~= start + block_starts(blocks.take(0)));
            }
            let mut i: usize = 0;
            while i < self.blocks_pending.len()
                invariant
                    i <= self.blocks_pending.len(),
                    blocks == self@.blocks_pending,
                    self.blocks_pending == old(self).blocks_pending,
                    self.namespace == old(self).namespace,
                    self.header == old(self).header,
                    self.includes == old(self).includes,
                    self.content@ == start + block_starts(blocks.take(i as int)),
                decreases self.blocks_pending.len() - i,
            {
                self.content.append(self.blocks_pending[i]);
                self.content.append(" {\n");
                i += 1;
                proof {
                    assert(blocks.take(i as int).drop_last() =~= blocks.take(i - 1));
                    assert(self.content@ =~= start + block_starts(blocks.take(i as int)));
                }
            }
            proof {
                assert(blocks.take(i as int) =~= blocks);
                assert(self.content@ =~= old(self).content@ + old(self)@.owed());
            }
            self.blocks_pending = Vec::new();
            self.section_pending = false;
        } else {
            proof {
                assert(self.content@ =~= old(self).content@ + old(self)@.owed());
            }
        }
        self.content.append(s);
        proof {
            assert(self@.blocks_pending =~= Seq::<Seq<char>>::empty());
        }
    }
}

}
