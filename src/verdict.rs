use vstd::prelude::*;

use crate::colour::Colour;

verus! {

/// A copy of a sequence of colours.
pub fn copy_colours(v: &[Colour]) -> (r: Vec<Colour>)
    ensures
        r@ == v@,
{
    let mut r: Vec<Colour> = Vec::new();
    let mut i: usize = 0;
    while i < v.len()
        invariant
            i <= v@.len(),
            r@ == v@.take(i as int),
        decreases v@.len() - i,
    {
        r.push(v[i]);
        assert(v@.take(i + 1) =~= v@.take(i as int).push(v@[i as int]));
        i = i + 1;
    }
    assert(v@.take(i as int) =~= v@);
    r
}

/// What a run of a test is expected to end in.
#[derive(Debug)]
pub enum TestTarget {
    Reject,
    Accept,
    AcceptWith(Vec<Colour>),
}

/// What a run of a test ended in.
#[derive(Debug)]
pub enum TestResult {
    Reject,
    AcceptWith(Vec<Colour>),
    NotEnoughInputSpace,
}

/// A test case: the colours placed on the input cells, and the expected end.
#[derive(Debug)]
pub struct Test {
    input: Vec<Colour>,
    output: TestTarget,
}

/// A finished test: the test and what its run ended in.
#[derive(Debug)]
pub struct MetaTestResult {
    test: Test,
    result: TestResult,
}

/// The model of an expected end.
pub enum TargetModel {
    Reject,
    Accept,
    AcceptWith(Seq<Colour>),
}

/// The model of an actual end.
pub enum ResultModel {
    Reject,
    AcceptWith(Seq<Colour>),
    NotEnoughInputSpace,
}

impl View for TestTarget {
    type V = TargetModel;

    open spec fn view(&self) -> TargetModel {
        match self {
            TestTarget::Reject => TargetModel::Reject,
            TestTarget::Accept => TargetModel::Accept,
            TestTarget::AcceptWith(v) => TargetModel::AcceptWith(v@),
        }
    }
}

impl View for TestResult {
    type V = ResultModel;

    open spec fn view(&self) -> ResultModel {
        match self {
            TestResult::Reject => ResultModel::Reject,
            TestResult::AcceptWith(v) => ResultModel::AcceptWith(v@),
            TestResult::NotEnoughInputSpace => ResultModel::NotEnoughInputSpace,
        }
    }
}

/// A run passes when it rejects where rejection was expected, accepts where
/// acceptance was expected, and, where an output was expected, produced
/// exactly that output.
pub open spec fn spec_passed(target: TargetModel, result: ResultModel) -> bool {
    match (target, result) {
        (TargetModel::Reject, ResultModel::Reject) => true,
        (TargetModel::Accept, ResultModel::AcceptWith(_)) => true,
        (TargetModel::AcceptWith(ideal), ResultModel::AcceptWith(found)) => ideal == found,
        _ => false,
    }
}

/// Whether two colour sequences are equal.
fn same_colours(a: &Vec<Colour>, b: &Vec<Colour>) -> (r: bool)
    ensures
        r == (a@ == b@),
{
    if a.len() != b.len() {
        return false;
    }
    let mut i: usize = 0;
    while i < a.len()
        invariant
            a@.len() == b@.len(),
            i <= a@.len(),
            forall|j: int| 0 <= j < i ==> a@[j] == b@[j],
        decreases a@.len() - i,
    {
        if a[i] != b[i] {
            return false;
        }
        i = i + 1;
    }
    assert(a@ =~= b@);
    true
}

impl Clone for TestTarget {
    fn clone(&self) -> (r: Self)
        ensures
            r@ == self@,
    {
        match self {
            TestTarget::Reject => TestTarget::Reject,
            TestTarget::Accept => TestTarget::Accept,
            TestTarget::AcceptWith(v) => TestTarget::AcceptWith(copy_colours(v.as_slice())),
        }
    }
}

impl Clone for TestResult {
    fn clone(&self) -> (r: Self)
        ensures
            r@ == self@,
    {
        match self {
            TestResult::Reject => TestResult::Reject,
            TestResult::AcceptWith(v) => TestResult::AcceptWith(copy_colours(v.as_slice())),
            TestResult::NotEnoughInputSpace => TestResult::NotEnoughInputSpace,
        }
    }
}

impl Test {
    pub closed spec fn input_colours(&self) -> Seq<Colour> {
        self.input@
    }

    pub closed spec fn target(&self) -> TargetModel {
        self.output@
    }

    pub fn new(input: Vec<Colour>, output: TestTarget) -> (r: Test)
        ensures
            r.input_colours() == input@,
            r.target() == output@,
    {
        Test { input, output }
    }

    /// The colours placed on the input cells, in raster order of the cells.
    pub fn input(&self) -> (r: &[Colour])
        ensures
            r@ == self.input_colours(),
    {
        self.input.as_slice()
    }
}

impl Clone for Test {
    fn clone(&self) -> (r: Self)
        ensures
            r.input_colours() == self.input_colours(),
            r.target() == self.target(),
    {
        Test { input: copy_colours(self.input.as_slice()), output: self.output.clone() }
    }
}

impl MetaTestResult {
    pub closed spec fn test_input(&self) -> Seq<Colour> {
        self.test.input_colours()
    }

    pub closed spec fn test_target(&self) -> TargetModel {
        self.test.target()
    }

    pub closed spec fn outcome(&self) -> ResultModel {
        self.result@
    }

    pub fn new(test: Test, result: TestResult) -> (r: Self)
        ensures
            r.test_input() == test.input_colours(),
            r.test_target() == test.target(),
            r.outcome() == result@,
    {
        MetaTestResult { test, result }
    }

    /// Whether the run met the test's expectation.
    pub fn is_passed(&self) -> (r: bool)
        ensures
            r == spec_passed(self.test_target(), self.outcome()),
    {
        match (&self.test.output, &self.result) {
            (TestTarget::Reject, TestResult::Reject) => true,
            (TestTarget::Accept, TestResult::AcceptWith(_)) => true,
            (TestTarget::AcceptWith(ideal), TestResult::AcceptWith(found)) => same_colours(ideal, found),
            (_, _) => false,
        }
    }

    /// The test's input, for the report.
    pub fn input(&self) -> (r: &[Colour])
        ensures
            r@ == self.test_input(),
    {
        self.test.input()
    }

    /// The expected end, for the report.
    pub fn expected(&self) -> (r: &TestTarget)
        ensures
            r@ == self.test_target(),
    {
        &self.test.output
    }

    /// The actual end, for the report.
    pub fn actual(&self) -> (r: &TestResult)
        ensures
            r@ == self.outcome(),
    {
        &self.result
    }
}

impl Clone for MetaTestResult {
    fn clone(&self) -> (r: Self)
        ensures
            r.test_input() == self.test_input(),
            r.test_target() == self.test_target(),
            r.outcome() == self.outcome(),
    {
        MetaTestResult { test: self.test.clone(), result: self.result.clone() }
    }
}

} // verus!
