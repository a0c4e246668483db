//! Converting many documents: every document is converted by itself, the entries of those
//! that succeed are kept in order, and the failures of the others are kept beside them.

use vstd::prelude::*;
use crate::error::{outcome_view, XmlError, XmlErrorView};
use crate::function::{Function, FunctionView};
use crate::parser::XmlParser;

verus! {

/// The failure of one document of a batch.
#[derive(Debug, Clone, PartialEq, Eq)]
pub struct Failure {
    /// The place of the document in the batch, counted from zero.
    pub document: usize,
    pub error: XmlError,
}

/// What has become of the documents of a batch so far.
#[derive(Debug, Clone, PartialEq, Eq)]
pub struct Batch {
    /// The entries of the documents that were converted, in the order of their arrival.
    pub functions: Vec<Function>,
    /// The failures of the documents that were not, in the order of their arrival.
    pub failures: Vec<Failure>,
}

/// The mathematical value of a [`Failure`].
pub struct FailureView {
    pub document: int,
    pub error: XmlErrorView,
}

/// The mathematical value of a [`Batch`].
pub struct BatchView {
    pub functions: Seq<FunctionView>,
    pub failures: Seq<FailureView>,
}

impl View for Failure {
    type V = FailureView;

    open spec fn view(&self) -> FailureView {
        FailureView { document: self.document as int, error: self.error@ }
    }
}

impl View for Batch {
    type V = BatchView;

    open spec fn view(&self) -> BatchView {
        BatchView {
            functions: Seq::new(self.functions@.len(), |i: int| self.functions@[i]@),
            failures: Seq::new(self.failures@.len(), |i: int| self.failures@[i]@),
        }
    }
}

impl BatchView {
    /// The batch after the outcome of one more document: an entry joins the entries, a failure
    /// joins the failures under the place of its document, and nothing else changes.
    pub open spec fn with(
        self,
        document: int,
        outcome: Result<FunctionView, XmlErrorView>,
    ) -> BatchView {
        match outcome {
            Ok(function) => BatchView { functions: self.functions.push(function), ..self },
            Err(error) => BatchView {
                failures: self.failures.push(FailureView { document, error }),
                ..self
            },
        }
    }
}

/// The batch that the first `upto` of `outcomes` make, each recorded under its place.
pub open spec fn recorded(outcomes: Seq<Result<FunctionView, XmlErrorView>>, upto: int) -> BatchView
    decreases upto,
{
    if upto <= 0 || upto > outcomes.len() {
        BatchView { functions: Seq::empty(), failures: Seq::empty() }
    } else {
        recorded(outcomes, upto - 1).with(upto - 1, outcomes[upto - 1])
    }
}

/// Every outcome of a batch is either among its entries or among its failures: the two
/// together are as many as the outcomes, and no failure names a place outside them.
pub proof fn every_document_is_accounted_for(
    outcomes: Seq<Result<FunctionView, XmlErrorView>>,
    upto: int,
)
    requires
        0 <= upto <= outcomes.len(),
    ensures
        recorded(outcomes, upto).functions.len() + recorded(outcomes, upto).failures.len() == upto,
        forall|k: int|
            0 <= k < recorded(outcomes, upto).failures.len() ==> 0 <= (#[trigger] recorded(
                outcomes,
                upto,
            ).failures[k]).document < upto,
    decreases upto,
{
    if upto > 0 {
        every_document_is_accounted_for(outcomes, upto - 1);
    }
}

impl Batch {
    /// A batch of which no document has arrived yet.
    pub fn new() -> (batch: Batch)
        ensures
            batch@ == (BatchView { functions: Seq::empty(), failures: Seq::empty() }),
    {
        let batch = Batch { functions: Vec::new(), failures: Vec::new() };
        assert(batch@.functions =~= Seq::empty());
        assert(batch@.failures =~= Seq::empty());
        batch
    }

    /// Records the outcome of the document at place `document`. See [`BatchView::with`].
    pub fn record(&mut self, document: usize, outcome: Result<Function, XmlError>)
        ensures
            final(self)@ == old(self)@.with(document as int, outcome_view(outcome)),
    {
        match outcome {
            Ok(function) => {
                self.functions.push(function);
                assert(self@.functions =~= old(self)@.functions.push(function@));
                assert(self@.failures =~= old(self)@.failures);
            },
            Err(error) => {
                self.failures.push(Failure { document, error });
                assert(self@.failures =~= old(self)@.failures.push(
                    FailureView { document: document as int, error: error@ },
                ));
                assert(self@.functions =~= old(self)@.functions);
            },
        }
    }
}

impl XmlParser {
    /// Converts every document of `documents` by itself, one after the other.
    ///
    /// A document that fails does not touch the others. Which documents succeed is up to
    /// [`XmlParser::parse_function`]; whatever it gives, every document ends up either among
    /// the entries or among the failures, under its own place.
    pub fn parse_batch(&self, documents: &Vec<Vec<u8>>) -> (batch: Batch)
        ensures
            exists|outcomes: Seq<Result<FunctionView, XmlErrorView>>|
                outcomes.len() == documents.len() && batch@ == #[trigger] recorded(
                    outcomes,
                    outcomes.len() as int,
                ),
    {
        let mut batch = Batch::new();
        let ghost mut outcomes: Seq<Result<FunctionView, XmlErrorView>> = Seq::empty();
        let mut i: usize = 0;
        while i < documents.len()
            invariant
                i <= documents.len(),
                outcomes.len() == i,
                batch@ == recorded(outcomes, i as int),
            decreases documents.len() - i,
        {
            let outcome = self.parse_function(&documents[i]);
            proof {
                let before = outcomes;
                outcomes = outcomes.push(outcome_view(outcome));
                lemma_recorded_prefix(before, outcomes, i as int);
            }
            batch.record(i, outcome);
            i += 1;
        }
        batch
    }
}

/// What the first outcomes make does not depend on the outcomes after them.
proof fn lemma_recorded_prefix(
    shorter: Seq<Result<FunctionView, XmlErrorView>>,
    longer: Seq<Result<FunctionView, XmlErrorView>>,
    upto: int,
)
    requires
        0 <= upto <= shorter.len() <= longer.len(),
        forall|k: int| 0 <= k < upto ==> shorter[k] == longer[k],
    ensures
        recorded(shorter, upto) == recorded(longer, upto),
    decreases upto,
{
    if upto > 0 {
        lemma_recorded_prefix(shorter, longer, upto - 1);
    }
}

} // verus!
