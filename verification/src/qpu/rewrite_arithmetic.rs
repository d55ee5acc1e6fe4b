//! The bookkeeping of rewriting arithmetic for Rigetti QPUs, which evaluate no arithmetic
//! themselves: each expression that needs evaluating gets a slot of the `__SUBST` memory
//! region, which is filled in locally for every parameter set, and equal expressions share a
//! slot. Frequencies are given relative to the sample rate (and centre frequency) of their
//! frame, which must define one.
use crate::qpu::result_data::{find_key, value_of};
use crate::quil::MemoryReference;
use quil_rs::expression::Expression;
use quil_rs::instruction::MemoryReference as QuilMemoryReference;
use std::str::FromStr;
use vstd::prelude::*;

verus! {

/// What quil-rs's `PartialEq` for `Expression` says of two expressions.
pub uninterp spec fn expressions_equal(first: Expression, second: Expression) -> bool;

/// Compares two expressions with quil-rs's `PartialEq` for `Expression`, which compares them
/// structurally; the result depends on the two expressions alone.
#[verifier::external_body]
fn expression_eq(first: &Expression, second: &Expression) -> (equal: bool)
    ensures
        equal == expressions_equal(*first, *second),
{
    first == second
}

/// What quil-rs's `Expression::into_simplified` gives of an expression.
pub uninterp spec fn simplified(expression: Expression) -> Expression;

/// Simplifies an expression with quil-rs's `Expression::into_simplified`, which folds
/// constant arithmetic; the result depends on the expression alone.
#[verifier::external_body]
fn simplify(expression: Expression) -> (result: Expression)
    ensures
        result == simplified(expression),
{
    expression.into_simplified()
}

/// Whether an expression is quil-rs's `Expression::Number`: a literal complex number.
pub uninterp spec fn is_number(expression: Expression) -> bool;

/// Tells whether an expression is the `Number` variant of quil-rs's `Expression`.
#[verifier::external_body]
fn expression_is_number(expression: &Expression) -> (number: bool)
    ensures
        number == is_number(*expression),
{
    matches!(expression, Expression::Number(_))
}

/// What quil-rs's `Div` for `Expression` gives: the infix expression `dividend / divisor`.
pub uninterp spec fn quotient(dividend: Expression, divisor: Expression) -> Expression;

/// Builds `dividend / divisor` with quil-rs's `Div` for `Expression`, which builds the infix
/// expression without simplifying it.
#[verifier::external_body]
fn divide(dividend: Expression, divisor: Expression) -> (result: Expression)
    ensures
        result == quotient(dividend, divisor),
{
    dividend / divisor
}

/// What quil-rs's `Sub` for `Expression` gives: the infix expression `minuend - subtrahend`.
pub uninterp spec fn difference(minuend: Expression, subtrahend: Expression) -> Expression;

/// Builds `minuend - subtrahend` with quil-rs's `Sub` for `Expression`, which builds the
/// infix expression without simplifying it.
#[verifier::external_body]
fn subtract(minuend: Expression, subtrahend: Expression) -> (result: Expression)
    ensures
        result == difference(minuend, subtrahend),
{
    minuend - subtrahend
}

/// The quil-rs expression `Expression::Address` of the element `name[index]`.
pub uninterp spec fn address(name: Seq<char>, index: u64) -> Expression;

/// Builds the quil-rs expression that reads the memory element `name[index]`.
#[verifier::external_body]
fn address_expression(name: String, index: u64) -> (result: Expression)
    ensures
        result == address(name@, index),
{
    Expression::Address(QuilMemoryReference::new(name, index))
}

/// What quil-rs's `FromStr` for `Expression` gives of a text: the expression, or `None` where
/// the text is not one.
pub uninterp spec fn parsed(text: Seq<char>) -> Option<Expression>;

/// Parses an expression with quil-rs's `FromStr` for `Expression`. The texts `2.0*pi` and
/// `8.0` are expressions of its grammar (a real literal times the constant `pi`, and a real
/// literal), so they parse.
#[verifier::external_body]
fn parse_expression(text: &str) -> (result: Option<Expression>)
    ensures
        result == parsed(text@),
        text@ == "2.0*pi"@ || text@ == "8.0"@ ==> result is Some,
{
    Expression::from_str(text).ok()
}

/// Copies an expression with quil-rs's derived `Clone` for `Expression`, which gives an equal
/// expression.
#[verifier::external_body]
fn clone_expression(expression: &Expression) -> (copy: Expression)
    ensures
        copy == *expression,
{
    expression.clone()
}

/// The name of the memory region that holds the values of substituted expressions.
pub open spec fn substitution_name() -> Seq<char> {
    "__SUBST"@
}

/// All of the errors that can occur in this module.
#[derive(Debug, PartialEq, Eq)]
pub enum Error {
    /// A DEFRAME is missing for the given frame.
    MissingDefFrame(String),
    /// The SAMPLE-RATE value is invalid for the given frame.
    InvalidSampleRate {
        /// The invalid SAMPLE-RATE value.
        sample_rate: String,
        /// The given frame name.
        frame: String,
    },
    /// A SAMPLE-RATE is missing for the given frame.
    MissingSampleRate(String),
}

/// The position of the first expression in a list that equals a given one.
pub open spec fn first_equal(expressions: Seq<Expression>, expression: Expression) -> Option<int>
    decreases expressions.len(),
{
    if expressions.len() == 0 {
        None
    } else if expressions_equal(expressions[0], expression) {
        Some(0)
    } else {
        match first_equal(expressions.drop_first(), expression) {
            Some(position) => Some(position + 1),
            None => None,
        }
    }
}

/// The expressions to be evaluated for a program, each of which takes one slot of the
/// `__SUBST` region, in order; no expression equals one before it.
#[derive(Debug)]
pub struct Substitutions {
    expressions: Vec<Expression>,
}

impl Substitutions {
    #[verifier::type_invariant]
    spec fn nothing_twice(&self) -> bool {
        forall|i: int, j: int|
            0 <= i < j < self.expressions@.len() ==> !expressions_equal(
                #[trigger] self.expressions@[i],
                #[trigger] self.expressions@[j],
            )
    }

    /// The expressions, by slot.
    pub closed spec fn spec_expressions(&self) -> Seq<Expression> {
        self.expressions@
    }

    /// No substitutions.
    pub fn new() -> (substitutions: Self)
        ensures
            substitutions.spec_expressions() == Seq::<Expression>::empty(),
    {
        Substitutions { expressions: Vec::new() }
    }

    /// The number of substituted expressions, which is the size of the `__SUBST` region.
    pub fn len(&self) -> (count: usize)
        ensures
            count == self.spec_expressions().len(),
    {
        self.expressions.len()
    }

    /// Whether no expression is substituted.
    pub fn is_empty(&self) -> (empty: bool)
        ensures
            empty == (self.spec_expressions().len() == 0),
    {
        self.expressions.len() == 0
    }

    /// The substituted expressions, by slot.
    pub fn expressions(&self) -> (expressions: &Vec<Expression>)
        ensures
            expressions@ == self.spec_expressions(),
    {
        &self.expressions
    }

    fn position_of(&self, expression: &Expression) -> (position: Option<usize>)
        ensures
            match position {
                Some(p) => first_equal(self.spec_expressions(), *expression) == Some(p as int),
                None => first_equal(self.spec_expressions(), *expression) is None,
            },
    {
        let ghost all = self.expressions@;
        let mut j: usize = 0;
        while j < self.expressions.len()
            invariant
                all == self.expressions@,
                j <= all.len(),
                forall|k: int| 0 <= k < j ==> !expressions_equal(#[trigger] all[k], *expression),
            decreases all.len() - j,
        {
            if expression_eq(&self.expressions[j], expression) {
                proof {
                    lemma_first_equal_at(all, *expression, j as int);
                }
                return Some(j);
            }
            j = j + 1;
        }
        proof {
            lemma_first_equal_none(all, *expression);
        }
        None
    }

    /// The memory reference that stands for an expression: the slot of the first equal
    /// expression already substituted, or else a new slot at the end for it.
    pub fn substitution(&mut self, expression: Expression) -> (reference: MemoryReference)
        ensures
            reference.name@ == substitution_name(),
            match first_equal(old(self).spec_expressions(), expression) {
                Some(slot) => reference.index == slot && final(self).spec_expressions() == old(
                    self,
                ).spec_expressions(),
                None => reference.index == old(self).spec_expressions().len()
                    && final(self).spec_expressions() == old(self).spec_expressions().push(
                    expression,
                ),
            },
    {
        proof {
            use_type_invariant(&*self);
        }
        let slot = match self.position_of(&expression) {
            Some(slot) => slot,
            None => {
                let slot = self.expressions.len();
                proof {
                    lemma_first_equal_none_all(self.expressions@, expression);
                }
                let mut expressions: Vec<Expression> = Vec::new();
                std::mem::swap(&mut expressions, &mut self.expressions);
                expressions.push(expression);
                self.expressions = expressions;
                slot
            },
        };
        proof {
            reveal_strlit("__SUBST");
        }
        MemoryReference { name: "__SUBST".to_owned(), index: slot as u64 }
    }
}

proof fn lemma_first_equal_at(expressions: Seq<Expression>, expression: Expression, j: int)
    requires
        0 <= j < expressions.len(),
        expressions_equal(expressions[j], expression),
        forall|k: int| 0 <= k < j ==> !expressions_equal(#[trigger] expressions[k], expression),
    ensures
        first_equal(expressions, expression) == Some(j),
    decreases j,
{
    if j > 0 {
        let rest = expressions.drop_first();
        assert forall|k: int| 0 <= k < j - 1 implies !expressions_equal(
            #[trigger] rest[k],
            expression,
        ) by {
            assert(rest[k] == expressions[k + 1]);
        }
        assert(!expressions_equal(expressions[0], expression));
        lemma_first_equal_at(rest, expression, j - 1);
    }
}

proof fn lemma_first_equal_none(expressions: Seq<Expression>, expression: Expression)
    requires
        forall|k: int|
            0 <= k < expressions.len() ==> !expressions_equal(#[trigger] expressions[k], expression),
    ensures
        first_equal(expressions, expression) is None,
    decreases expressions.len(),
{
    if expressions.len() > 0 {
        let rest = expressions.drop_first();
        assert forall|k: int| 0 <= k < rest.len() implies !expressions_equal(
            #[trigger] rest[k],
            expression,
        ) by {
            assert(rest[k] == expressions[k + 1]);
        }
        assert(!expressions_equal(expressions[0], expression));
        lemma_first_equal_none(rest, expression);
    }
}

proof fn lemma_first_equal_none_all(expressions: Seq<Expression>, expression: Expression)
    requires
        first_equal(expressions, expression) is None,
    ensures
        forall|k: int|
            0 <= k < expressions.len() ==> !expressions_equal(#[trigger] expressions[k], expression),
    decreases expressions.len(),
{
    if expressions.len() > 0 {
        lemma_first_equal_none_all(expressions.drop_first(), expression);
        assert forall|k: int| 0 <= k < expressions.len() implies !expressions_equal(
            #[trigger] expressions[k],
            expression,
        ) by {
            if k > 0 {
                assert(expressions.drop_first()[k - 1] == expressions[k]);
            }
        }
    }
}

/// Substituting an expression a second time gives the slot it was given the first time,
/// where the expression equals itself (quil-rs's equality is reflexive, NaNs included).
pub proof fn lemma_substitution_reuses_slot(
    before: Seq<Expression>,
    expression: Expression,
    slot: int,
    after: Seq<Expression>,
)
    requires
        expressions_equal(expression, expression),
        match first_equal(before, expression) {
            Some(found) => slot == found && after == before,
            None => slot == before.len() && after == before.push(expression),
        },
    ensures
        first_equal(after, expression) == Some(slot),
{
    match first_equal(before, expression) {
        Some(found) => {},
        None => {
            lemma_first_equal_none_all(before, expression);
            assert forall|k: int| 0 <= k < slot implies !expressions_equal(
                #[trigger] after[k],
                expression,
            ) by {
                assert(after[k] == before[k]);
            }
            lemma_first_equal_at(after, expression, slot);
        },
    }
}

/// An attribute of a frame, as a `DEFFRAME` gives it.
#[derive(Debug)]
pub enum AttributeValue {
    /// A string value.
    String(String),
    /// An expression value.
    Expression(Expression),
}

/// The name of the attribute that gives a frame's sample rate.
pub open spec fn sample_rate_key() -> Seq<char> {
    "SAMPLE-RATE"@
}

/// The name of the attribute that gives a frame's centre frequency.
pub open spec fn center_frequency_key() -> Seq<char> {
    "CENTER-FREQUENCY"@
}

/// The expressions by which a frequency on a frame is made relative: the frame's sample rate,
/// by which it is divided, and its centre frequency, if it has one given as an expression,
/// which is first subtracted. The frame must have a `DEFFRAME` (its attributes) with a
/// `SAMPLE-RATE` given as an expression.
pub fn frequency_divisors<'a>(frame: &str, attributes: Option<&'a Vec<(String, AttributeValue)>>) -> (divisors: Result<
    (&'a Expression, Option<&'a Expression>),
    Error,
>)
    ensures
        match attributes {
            None => (divisors matches Err(Error::MissingDefFrame(name)) && name@ == frame@),
            Some(attributes) => match value_of(attributes@, sample_rate_key()) {
                Some(AttributeValue::Expression(sample_rate)) => divisors is Ok && *divisors->Ok_0.0
                    == sample_rate && match value_of(attributes@, center_frequency_key()) {
                    Some(AttributeValue::Expression(center)) => divisors->Ok_0.1 == Some(&center),
                    _ => divisors->Ok_0.1 is None,
                },
                Some(AttributeValue::String(text)) => (divisors matches Err(
                    Error::InvalidSampleRate { sample_rate, frame: name },
                ) && sample_rate@ == text@ && name@ == frame@),
                None => (divisors matches Err(Error::MissingSampleRate(name)) && name@ == frame@),
            },
        },
{
    let attributes = match attributes {
        Some(attributes) => attributes,
        None => {
            return Err(Error::MissingDefFrame(frame.to_owned()));
        },
    };
    let sample_rate_name: String = "SAMPLE-RATE".to_owned();
    let sample_rate = match find_key(attributes, &sample_rate_name) {
        Some(i) => match &attributes[i].1 {
            AttributeValue::Expression(expression) => expression,
            AttributeValue::String(text) => {
                return Err(
                    Error::InvalidSampleRate { sample_rate: text.clone(), frame: frame.to_owned() },
                );
            },
        },
        None => {
            return Err(Error::MissingSampleRate(frame.to_owned()));
        },
    };
    let center_frequency_name: String = "CENTER-FREQUENCY".to_owned();
    let center = match find_key(attributes, &center_frequency_name) {
        Some(j) => match &attributes[j].1 {
            AttributeValue::Expression(expression) => Some(expression),
            AttributeValue::String(_) => None,
        },
        None => None,
    };
    Ok((sample_rate, center))
}


/// The expression `2.0*pi`, by which radians are divided into rotations.
pub open spec fn two_pi() -> Expression {
    parsed("2.0*pi"@)->Some_0
}

/// The expression `8.0`, by which scales are divided.
pub open spec fn eight() -> Expression {
    parsed("8.0"@)->Some_0
}

/// The substitutions after substituting `expression`, and the reference to its slot of
/// `__SUBST`: the slot of the first equal expression, or a new slot at the end.
pub open spec fn with_slot(substitutions: Seq<Expression>, expression: Expression) -> (
    Seq<Expression>,
    Expression,
) {
    match first_equal(substitutions, expression) {
        Some(slot) => (substitutions, address(substitution_name(), slot as u64)),
        None => (
            substitutions.push(expression),
            address(substitution_name(), substitutions.len() as u64),
        ),
    }
}

/// A gate parameter in rotations: its simplification where that is a number, else the slot
/// of the simplified quotient of the simplification by `2.0*pi`.
pub open spec fn parameter_rewritten(substitutions: Seq<Expression>, expression: Expression) -> (
    Seq<Expression>,
    Expression,
) {
    let simple = simplified(expression);
    if is_number(simple) {
        (substitutions, simple)
    } else {
        with_slot(substitutions, simplified(quotient(simple, two_pi())))
    }
}

/// The parameters of a gate in rotations, from the first to the last.
pub open spec fn parameters_rewritten(substitutions: Seq<Expression>, parameters: Seq<Expression>) -> (
    Seq<Expression>,
    Seq<Expression>,
)
    decreases parameters.len(),
{
    if parameters.len() == 0 {
        (substitutions, Seq::empty())
    } else {
        let (before, done) = parameters_rewritten(substitutions, parameters.drop_last());
        let (after, last) = parameter_rewritten(before, parameters.last());
        (after, done.push(last))
    }
}

/// A phase in rotations: the phase itself where it is a number (it is not simplified first),
/// else the slot of the simplified quotient of the phase by `2.0*pi`.
pub open spec fn phase_rewritten(substitutions: Seq<Expression>, phase: Expression) -> (
    Seq<Expression>,
    Expression,
) {
    if is_number(phase) {
        (substitutions, phase)
    } else {
        with_slot(substitutions, simplified(quotient(phase, two_pi())))
    }
}

/// A scale as the QPU reads it: its simplification where that is a number, else the slot of
/// the simplified quotient of the simplification by `8.0`.
pub open spec fn scale_rewritten(substitutions: Seq<Expression>, scale: Expression) -> (
    Seq<Expression>,
    Expression,
) {
    let simple = simplified(scale);
    if is_number(simple) {
        (substitutions, simple)
    } else {
        with_slot(substitutions, simplified(quotient(simple, eight())))
    }
}

/// The attributes of the frame definition that an instruction refers to, if it refers to one
/// of `frames`.
pub open spec fn frame_definition(
    frames: Seq<Vec<(String, AttributeValue)>>,
    definition: Option<usize>,
) -> Option<Seq<(String, AttributeValue)>> {
    match definition {
        Some(i) => if i < frames.len() {
            Some(frames[i as int]@)
        } else {
            None
        },
        None => None,
    }
}

/// The sample rate and centre frequency that make a frequency on a frame relative, where the
/// frame's attributes give a sample rate as an expression.
pub open spec fn divisors(attributes: Option<Seq<(String, AttributeValue)>>) -> Option<
    (Expression, Option<Expression>),
> {
    match attributes {
        None => None,
        Some(attributes) => match value_of(attributes, sample_rate_key()) {
            Some(AttributeValue::Expression(sample_rate)) => Some(
                (
                    sample_rate,
                    match value_of(attributes, center_frequency_key()) {
                        Some(AttributeValue::Expression(center)) => Some(center),
                        _ => None,
                    },
                ),
            ),
            _ => None,
        },
    }
}

/// Whether `error` is the one that a frequency on the frame named `frame`, with the given
/// attributes, gives where the frame has no usable sample rate.
pub open spec fn is_divisor_error(
    frame: Seq<char>,
    attributes: Option<Seq<(String, AttributeValue)>>,
    error: Error,
) -> bool {
    match attributes {
        None => error matches Error::MissingDefFrame(name) && name@ == frame,
        Some(attributes) => match value_of(attributes, sample_rate_key()) {
            Some(AttributeValue::String(text)) => (error matches Error::InvalidSampleRate {
                sample_rate,
                frame: name,
            } && sample_rate@ == text@ && name@ == frame),
            None => error matches Error::MissingSampleRate(name) && name@ == frame,
            _ => false,
        },
    }
}

/// A frequency relative to its frame: its simplification where that is a number, else the
/// slot of the simplification less the frame's centre frequency (if it has one), divided by
/// its sample rate. `None` where the simplification is not a number and the frame has no
/// usable sample rate.
pub open spec fn frequency_rewritten(
    substitutions: Seq<Expression>,
    frequency: Expression,
    divisors: Option<(Expression, Option<Expression>)>,
) -> Option<(Seq<Expression>, Expression)> {
    let simple = simplified(frequency);
    if is_number(simple) {
        Some((substitutions, simple))
    } else {
        match divisors {
            None => None,
            Some((sample_rate, center)) => Some(
                with_slot(
                    substitutions,
                    quotient(
                        match center {
                            Some(center) => difference(simple, center),
                            None => simple,
                        },
                        sample_rate,
                    ),
                ),
            ),
        }
    }
}

/// An instruction as the rewriting of arithmetic reads it: the expressions it rewrites, and
/// for a frequency, the frame's name and the position of its definition among the program's
/// frame definitions, if it has one.
#[derive(Debug)]
pub enum RewritableInstruction {
    /// A gate, with its parameters.
    Gate(Vec<Expression>),
    /// `SET-SCALE`, with its scale.
    SetScale(Expression),
    /// `SET-FREQUENCY`.
    SetFrequency {
        /// The name of the frame.
        frame: String,
        /// The position of the frame's definition.
        definition: Option<usize>,
        /// The frequency.
        frequency: Expression,
    },
    /// `SHIFT-FREQUENCY`.
    ShiftFrequency {
        /// The name of the frame.
        frame: String,
        /// The position of the frame's definition.
        definition: Option<usize>,
        /// The frequency.
        frequency: Expression,
    },
    /// `SET-PHASE`, with its phase.
    SetPhase(Expression),
    /// `SHIFT-PHASE`, with its phase.
    ShiftPhase(Expression),
    /// Any other instruction, which is left as it is.
    Other,
}

/// The mathematical value of a [`RewritableInstruction`].
pub enum RewritableInstructionView {
    /// A gate, with its parameters.
    Gate(Seq<Expression>),
    /// `SET-SCALE`, with its scale.
    SetScale(Expression),
    /// `SET-FREQUENCY`: the frame's name, the position of its definition, the frequency.
    SetFrequency(Seq<char>, Option<usize>, Expression),
    /// `SHIFT-FREQUENCY`: the frame's name, the position of its definition, the frequency.
    ShiftFrequency(Seq<char>, Option<usize>, Expression),
    /// `SET-PHASE`, with its phase.
    SetPhase(Expression),
    /// `SHIFT-PHASE`, with its phase.
    ShiftPhase(Expression),
    /// Any other instruction.
    Other,
}

impl View for RewritableInstruction {
    type V = RewritableInstructionView;

    open spec fn view(&self) -> RewritableInstructionView {
        match self {
            RewritableInstruction::Gate(parameters) => RewritableInstructionView::Gate(
                parameters@,
            ),
            RewritableInstruction::SetScale(scale) => RewritableInstructionView::SetScale(*scale),
            RewritableInstruction::SetFrequency { frame, definition, frequency } =>
                RewritableInstructionView::SetFrequency(frame@, *definition, *frequency),
            RewritableInstruction::ShiftFrequency { frame, definition, frequency } =>
                RewritableInstructionView::ShiftFrequency(frame@, *definition, *frequency),
            RewritableInstruction::SetPhase(phase) => RewritableInstructionView::SetPhase(*phase),
            RewritableInstruction::ShiftPhase(phase) => RewritableInstructionView::ShiftPhase(
                *phase,
            ),
            RewritableInstruction::Other => RewritableInstructionView::Other,
        }
    }
}

/// The views of a list of instructions.
pub open spec fn instruction_views(instructions: Seq<RewritableInstruction>) -> Seq<
    RewritableInstructionView,
> {
    instructions.map_values(|instruction: RewritableInstruction| instruction@)
}

/// One instruction rewritten, with the substitutions after it; `None` where it is a frequency
/// on a frame without a usable sample rate that needs one.
pub open spec fn instruction_rewritten(
    substitutions: Seq<Expression>,
    instruction: RewritableInstructionView,
    frames: Seq<Vec<(String, AttributeValue)>>,
) -> Option<(Seq<Expression>, RewritableInstructionView)> {
    match instruction {
        RewritableInstructionView::Gate(parameters) => {
            let (after, rewritten) = parameters_rewritten(substitutions, parameters);
            Some((after, RewritableInstructionView::Gate(rewritten)))
        },
        RewritableInstructionView::SetScale(scale) => {
            let (after, rewritten) = scale_rewritten(substitutions, scale);
            Some((after, RewritableInstructionView::SetScale(rewritten)))
        },
        RewritableInstructionView::SetFrequency(frame, definition, frequency) => match frequency_rewritten(
            substitutions,
            frequency,
            divisors(frame_definition(frames, definition)),
        ) {
            Some((after, rewritten)) => Some(
                (after, RewritableInstructionView::SetFrequency(frame, definition, rewritten)),
            ),
            None => None,
        },
        RewritableInstructionView::ShiftFrequency(frame, definition, frequency) => match frequency_rewritten(
            substitutions,
            frequency,
            divisors(frame_definition(frames, definition)),
        ) {
            Some((after, rewritten)) => Some(
                (after, RewritableInstructionView::ShiftFrequency(frame, definition, rewritten)),
            ),
            None => None,
        },
        RewritableInstructionView::SetPhase(phase) => {
            let (after, rewritten) = phase_rewritten(substitutions, phase);
            Some((after, RewritableInstructionView::SetPhase(rewritten)))
        },
        RewritableInstructionView::ShiftPhase(phase) => {
            let (after, rewritten) = phase_rewritten(substitutions, phase);
            Some((after, RewritableInstructionView::ShiftPhase(rewritten)))
        },
        RewritableInstructionView::Other => Some((substitutions, RewritableInstructionView::Other)),
    }
}

/// A list of instructions rewritten from the first to the last, starting with no
/// substitutions, with the substitutions they need; `None` where one of them fails.
pub open spec fn instructions_rewritten(
    instructions: Seq<RewritableInstructionView>,
    frames: Seq<Vec<(String, AttributeValue)>>,
) -> Option<(Seq<Expression>, Seq<RewritableInstructionView>)>
    decreases instructions.len(),
{
    if instructions.len() == 0 {
        Some((Seq::empty(), Seq::empty()))
    } else {
        match instructions_rewritten(instructions.drop_last(), frames) {
            None => None,
            Some((before, done)) => match instruction_rewritten(
                before,
                instructions.last(),
                frames,
            ) {
                None => None,
                Some((after, last)) => Some((after, done.push(last))),
            },
        }
    }
}

/// Whether `error` is the one that the frequency instruction `instruction` gives.
pub open spec fn is_instruction_error(
    instruction: RewritableInstructionView,
    frames: Seq<Vec<(String, AttributeValue)>>,
    error: Error,
) -> bool {
    match instruction {
        RewritableInstructionView::SetFrequency(frame, definition, _) => is_divisor_error(
            frame,
            frame_definition(frames, definition),
            error,
        ),
        RewritableInstructionView::ShiftFrequency(frame, definition, _) => is_divisor_error(
            frame,
            frame_definition(frames, definition),
            error,
        ),
        _ => false,
    }
}

proof fn lemma_rewriting_fails_after(
    instructions: Seq<RewritableInstructionView>,
    frames: Seq<Vec<(String, AttributeValue)>>,
    j: int,
)
    requires
        0 <= j < instructions.len(),
        instructions_rewritten(instructions.take(j), frames) is Some,
        instruction_rewritten(
            instructions_rewritten(instructions.take(j), frames)->Some_0.0,
            instructions[j],
            frames,
        ) is None,
    ensures
        instructions_rewritten(instructions, frames) is None,
    decreases instructions.len(),
{
    let rest = instructions.drop_last();
    if j == instructions.len() - 1 {
        assert(rest =~= instructions.take(j));
    } else {
        assert(rest.take(j) =~= instructions.take(j));
        assert(rest[j] == instructions[j]);
        lemma_rewriting_fails_after(rest, frames, j);
    }
}

fn slot_reference(substitutions: &mut Substitutions, expression: Expression) -> (reference:
    Expression)
    ensures
        (final(substitutions).spec_expressions(), reference) == with_slot(
            old(substitutions).spec_expressions(),
            expression,
        ),
{
    let reference = substitutions.substitution(expression);
    address_expression(reference.name, reference.index)
}

fn divided_in_slot(substitutions: &mut Substitutions, expression: Expression, divisor: &str) -> (reference:
    Expression)
    requires
        divisor@ == "2.0*pi"@ || divisor@ == "8.0"@,
    ensures
        (final(substitutions).spec_expressions(), reference) == with_slot(
            old(substitutions).spec_expressions(),
            simplified(quotient(expression, parsed(divisor@)->Some_0)),
        ),
{
    let divisor = parse_expression(divisor).unwrap();
    let divided = simplify(divide(expression, divisor));
    slot_reference(substitutions, divided)
}

fn rewrite_parameter(substitutions: &mut Substitutions, parameter: Expression) -> (rewritten:
    Expression)
    ensures
        (final(substitutions).spec_expressions(), rewritten) == parameter_rewritten(
            old(substitutions).spec_expressions(),
            parameter,
        ),
{
    let simple = simplify(parameter);
    if expression_is_number(&simple) {
        simple
    } else {
        divided_in_slot(substitutions, simple, "2.0*pi")
    }
}

fn rewrite_parameters(substitutions: &mut Substitutions, parameters: Vec<Expression>) -> (rewritten:
    Vec<Expression>)
    ensures
        (final(substitutions).spec_expressions(), rewritten@) == parameters_rewritten(
            old(substitutions).spec_expressions(),
            parameters@,
        ),
{
    let ghost all = parameters@;
    let ghost start = substitutions.spec_expressions();
    let count = parameters.len();
    let mut remaining = parameters;
    let mut rewritten: Vec<Expression> = Vec::new();
    let mut i: usize = 0;
    assert(all.take(0) =~= Seq::<Expression>::empty());
    assert(all.subrange(0, all.len() as int) =~= all);
    while remaining.len() > 0
        invariant
            i <= all.len(),
            all.len() == count,
            remaining@ == all.subrange(i as int, all.len() as int),
            (substitutions.spec_expressions(), rewritten@) == parameters_rewritten(
                start,
                all.take(i as int),
            ),
        decreases remaining@.len(),
    {
        let parameter = remaining.remove(0);
        assert(parameter == all[i as int]);
        assert(all.take(i as int + 1).drop_last() =~= all.take(i as int));
        assert(remaining@ =~= all.subrange(i as int + 1, all.len() as int));
        let done = rewrite_parameter(substitutions, parameter);
        rewritten.push(done);
        i = i + 1;
    }
    assert(all.take(i as int) =~= all);
    rewritten
}

fn rewrite_phase(substitutions: &mut Substitutions, phase: Expression) -> (rewritten: Expression)
    ensures
        (final(substitutions).spec_expressions(), rewritten) == phase_rewritten(
            old(substitutions).spec_expressions(),
            phase,
        ),
{
    if expression_is_number(&phase) {
        phase
    } else {
        divided_in_slot(substitutions, phase, "2.0*pi")
    }
}

fn rewrite_scale(substitutions: &mut Substitutions, scale: Expression) -> (rewritten: Expression)
    ensures
        (final(substitutions).spec_expressions(), rewritten) == scale_rewritten(
            old(substitutions).spec_expressions(),
            scale,
        ),
{
    let simple = simplify(scale);
    if expression_is_number(&simple) {
        simple
    } else {
        divided_in_slot(substitutions, simple, "8.0")
    }
}

fn rewrite_frequency(
    substitutions: &mut Substitutions,
    frame: &String,
    definition: Option<usize>,
    frequency: Expression,
    frames: &Vec<Vec<(String, AttributeValue)>>,
) -> (rewritten: Result<Expression, Error>)
    ensures
        match frequency_rewritten(
            old(substitutions).spec_expressions(),
            frequency,
            divisors(frame_definition(frames@, definition)),
        ) {
            Some((after, expression)) => rewritten == Ok::<Expression, Error>(expression)
                && final(substitutions).spec_expressions() == after,
            None => rewritten is Err && is_divisor_error(
                frame@,
                frame_definition(frames@, definition),
                rewritten->Err_0,
            ) && final(substitutions).spec_expressions() == old(substitutions).spec_expressions(),
        },
{
    let simple = simplify(frequency);
    if expression_is_number(&simple) {
        return Ok(simple);
    }
    let attributes = match definition {
        Some(i) => if i < frames.len() {
            Some(&frames[i])
        } else {
            None
        },
        None => None,
    };
    let (sample_rate, center) = frequency_divisors(frame.as_str(), attributes)?;
    let relative = match center {
        Some(center) => subtract(simple, clone_expression(center)),
        None => simple,
    };
    let divided = divide(relative, clone_expression(sample_rate));
    Ok(slot_reference(substitutions, divided))
}

fn rewrite_instruction(
    substitutions: &mut Substitutions,
    instruction: RewritableInstruction,
    frames: &Vec<Vec<(String, AttributeValue)>>,
) -> (rewritten: Result<RewritableInstruction, Error>)
    ensures
        match instruction_rewritten(old(substitutions).spec_expressions(), instruction@, frames@) {
            Some((after, view)) => rewritten is Ok && rewritten->Ok_0@ == view
                && final(substitutions).spec_expressions() == after,
            None => rewritten is Err && is_instruction_error(
                instruction@,
                frames@,
                rewritten->Err_0,
            ),
        },
{
    match instruction {
        RewritableInstruction::Gate(parameters) => {
            let rewritten = rewrite_parameters(substitutions, parameters);
            Ok(RewritableInstruction::Gate(rewritten))
        },
        RewritableInstruction::SetScale(scale) => {
            Ok(RewritableInstruction::SetScale(rewrite_scale(substitutions, scale)))
        },
        RewritableInstruction::SetFrequency { frame, definition, frequency } => {
            let frequency = rewrite_frequency(substitutions, &frame, definition, frequency, frames)?;
            Ok(RewritableInstruction::SetFrequency { frame, definition, frequency })
        },
        RewritableInstruction::ShiftFrequency { frame, definition, frequency } => {
            let frequency = rewrite_frequency(substitutions, &frame, definition, frequency, frames)?;
            Ok(RewritableInstruction::ShiftFrequency { frame, definition, frequency })
        },
        RewritableInstruction::SetPhase(phase) => {
            Ok(RewritableInstruction::SetPhase(rewrite_phase(substitutions, phase)))
        },
        RewritableInstruction::ShiftPhase(phase) => {
            Ok(RewritableInstruction::ShiftPhase(rewrite_phase(substitutions, phase)))
        },
        RewritableInstruction::Other => Ok(RewritableInstruction::Other),
    }
}

/// Converts a program's instructions into a form that Rigetti QPUs can understand.
///
/// Unit conversion: gate parameters and phases are given in radians in Quil, but in
/// rotations (1 == 2π) for QPUs; scales are divided by 8; frequencies are made relative to
/// their frame: less its centre frequency, if it has one, and divided by its sample rate.
///
/// Arithmetic simplification: QPUs evaluate no arithmetic, so each expression that is not a
/// number after simplification (a phase is not simplified first) is replaced by a slot of
/// `__SUBST`, which is computed locally for every parameter set; equal expressions share a
/// slot. Every other instruction is left as it is.
///
/// Fails, at the first such instruction, where a frequency that is not a number names a frame
/// with no definition among `frames`, or one without a `SAMPLE-RATE` given as an expression.
pub fn rewrite_instructions(
    instructions: Vec<RewritableInstruction>,
    frames: &Vec<Vec<(String, AttributeValue)>>,
) -> (result: Result<(Vec<RewritableInstruction>, Substitutions), Error>)
    ensures
        match instructions_rewritten(instruction_views(instructions@), frames@) {
            Some((substitutions, rewritten)) => result is Ok && instruction_views(
                result->Ok_0.0@,
            ) == rewritten && result->Ok_0.1.spec_expressions() == substitutions,
            None => result is Err && exists|j: int|
                0 <= j < instructions@.len() && #[trigger] instructions_rewritten(
                    instruction_views(instructions@).take(j),
                    frames@,
                ) is Some && instruction_rewritten(
                    instructions_rewritten(instruction_views(instructions@).take(j), frames@)->Some_0.0,
                    instructions@[j]@,
                    frames@,
                ) is None && is_instruction_error(instructions@[j]@, frames@, result->Err_0),
        },
{
    let ghost original = instructions@;
    let ghost all = instruction_views(instructions@);
    let ghost n = instructions@.len();
    let count = instructions.len();
    let mut remaining = instructions;
    let mut rewritten: Vec<RewritableInstruction> = Vec::new();
    let mut substitutions = Substitutions::new();
    let mut i: usize = 0;
    assert(all.take(0) =~= Seq::<RewritableInstructionView>::empty());
    assert(instruction_views(rewritten@) =~= Seq::<RewritableInstructionView>::empty());
    while remaining.len() > 0
        invariant
            i <= n,
            n == all.len(),
            all == instruction_views(original),
            original == instructions@,
            n == original.len(),
            n == count,
            remaining@.len() == n - i,
            forall|k: int| 0 <= k < n - i ==> (#[trigger] remaining@[k])@ == all[i + k],
            instructions_rewritten(all.take(i as int), frames@) == Some(
                (substitutions.spec_expressions(), instruction_views(rewritten@)),
            ),
        decreases remaining@.len(),
    {
        let ghost before = remaining@;
        let instruction = remaining.remove(0);
        assert(instruction@ == all[i as int]) by {
            assert(before[0]@ == all[i as int + 0]);
        }
        assert forall|k: int| 0 <= k < n - i - 1 implies (#[trigger] remaining@[k])@ == all[i
            + 1 + k] by {
            assert(remaining@[k] == before[k + 1]);
            assert(before[k + 1]@ == all[i + (k + 1)]);
        }
        assert(all.take(i as int + 1).drop_last() =~= all.take(i as int));
        assert(all.take(i as int + 1).last() == all[i as int]);
        let ghost done = instruction_views(rewritten@);
        match rewrite_instruction(&mut substitutions, instruction, frames) {
            Ok(one) => {
                rewritten.push(one);
                assert(instruction_views(rewritten@) =~= done.push(one@));
            },
            Err(error) => {
                proof {
                    let j = i as int;
                    assert(all[j] == original[j]@);
                    assert(all.take(j) == instruction_views(original).take(j));
                    lemma_rewriting_fails_after(all, frames@, j);
                    assert(instructions_rewritten(instruction_views(original).take(j), frames@)
                        is Some);

                }
                return Err(error);
            },
        }
        i = i + 1;
    }
    assert(all.take(i as int) =~= all);
    Ok((rewritten, substitutions))
}

} // verus!
