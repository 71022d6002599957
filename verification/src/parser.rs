//! Parser lifecycle around the external engine, and the error taxonomy.
//!
//! A [`Parser`] tracks one incremental parse: lines are fed one at a time
//! with [`Parser::process_line`], and [`Parser::finish`] closes the parse and
//! converts the tree the engine reports. Batch use goes through
//! [`Parser::parse_document`], which converts one engine report in a single
//! call. Feeding after `finish`, or finishing twice, fails with
//! [`ParseError::InvalidState`]; no partial result is ever returned.

use crate::ast::Node;
use crate::ast::node_wf;
use crate::convert::convert_tree;
use crate::convert::document_model;
use crate::convert::result_model;
use crate::engine::EngineNode;
use crate::engine::engine_wf;
use vstd::prelude::*;

verus! {

/// Everything that can go wrong while parsing or converting.
#[derive(Debug, Clone, Copy, PartialEq, Eq, Structural)]
pub enum ParseError {
    /// The engine reported a node kind this library has no mapping for;
    /// the payload is the engine's kind tag.
    UnsupportedKind(u32),
    /// An incremental method was called outside its legal state: a feed
    /// after the parse was finished, or a second finish.
    InvalidState,
    /// The engine reported an unrecoverable internal failure.
    EngineFailure,
}

/// One incremental parse: whether it was finished, and — as ghost state —
/// what has been fed so far.
pub struct Parser {
    done: bool,
    fed_bytes: Ghost<Seq<u8>>,
}

impl Parser {
    /// Whether `finish` was already called on this parser.
    pub closed spec fn finished(self) -> bool {
        self.done
    }

    /// All bytes fed so far, in feed order: the document the engine sees.
    pub closed spec fn fed(self) -> Seq<u8> {
        self.fed_bytes@
    }

    /// A fresh parser: nothing fed, not finished.
    pub fn new() -> (p: Parser)
        ensures
            !p.finished(),
            p.fed() == Seq::<u8>::empty(),
    {
        Parser { done: false, fed_bytes: Ghost(Seq::empty()) }
    }

    /// Whether `finish` was already called.
    pub fn is_finished(&self) -> (b: bool)
        ensures
            b == self.finished(),
    {
        self.done
    }

    /// Feeds one line, terminator included. The line joins the fed bytes in
    /// order, so feeding every line of a document reproduces the document
    /// exactly. After `finish` this fails with `InvalidState` and changes
    /// nothing.
    pub fn process_line(&mut self, data: &[u8]) -> (r: Result<(), ParseError>)
        ensures
            old(self).finished() ==> r == Err::<(), ParseError>(ParseError::InvalidState)
                && *final(self) == *old(self),
            !old(self).finished() ==> r == Ok::<(), ParseError>(()) && !final(self).finished()
                && final(self).fed() == old(self).fed() + data@,
    {
        if self.done {
            return Err(ParseError::InvalidState);
        }
        self.fed_bytes = Ghost(self.fed_bytes@ + data@);
        Ok(())
    }

    /// Closes the parse and converts `root`, the tree the engine reported
    /// for everything fed so far. A second call fails with `InvalidState`
    /// and changes nothing.
    pub fn finish(&mut self, root: &EngineNode) -> (r: Result<Node, ParseError>)
        requires
            engine_wf(root@),
        ensures
            old(self).finished() ==> r == Err::<Node, ParseError>(ParseError::InvalidState)
                && *final(self) == *old(self),
            !old(self).finished() ==> {
                &&& final(self).finished()
                &&& final(self).fed() == old(self).fed()
                &&& result_model(r) == document_model(root@)
                &&& (r matches Ok(n) ==> node_wf(n@))
                &&& (r matches Err(x) ==> x is UnsupportedKind)
            },
    {
        if self.done {
            return Err(ParseError::InvalidState);
        }
        self.done = true;
        convert_tree(root)
    }

    /// Batch entry point: converts `root`, the tree the engine reported for
    /// a whole buffer submitted in one call. Independent of every other
    /// call; no state is kept.
    pub fn parse_document(root: &EngineNode) -> (r: Result<Node, ParseError>)
        requires
            engine_wf(root@),
        ensures
            result_model(r) == document_model(root@),
            (r matches Ok(n) ==> node_wf(n@)),
            (r matches Err(x) ==> x is UnsupportedKind),
    {
        convert_tree(root)
    }
}

/// Batch and incremental parsing agree. `parse_document` returns
/// `document_model(root@)` for an engine report `root`; `finish` on a parser
/// that was not yet finished returns the same, whatever lines were fed — and
/// by `process_line`'s contract the engine saw exactly the concatenation of
/// those lines, in order. So once the engine reports the same tree for the
/// same bytes, the two entry points return equal results.
pub proof fn lemma_batch_incremental_agree(
    root: EngineNode,
    batch: Result<Node, ParseError>,
    inc: Result<Node, ParseError>,
)
    requires
        result_model(batch) == document_model(root@),
        result_model(inc) == document_model(root@),
    ensures
        result_model(batch) == result_model(inc),
{
}

} // verus!
