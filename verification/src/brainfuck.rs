use crate::syntax::{exp_error, exps_match, star_end, tokens_of, Expression, ParseError, Program};
use crate::tape::{Direction, Tape};
use crate::token::Token;
use vstd::prelude::*;

verus! {

// ------------------------------------------------------------------
// The semantics: what running a program does, as functions over a
// machine state. The executable engine below is proved to follow them
// exactly, step by step.
// ------------------------------------------------------------------

/// Everything an executing program can observe or change: the tape
/// cells and cursor, the input bytes with how many were read, and the
/// output written so far.
pub struct State {
    pub cells: Seq<u8>,
    pub cursor: int,
    pub input: Seq<u8>,
    pub read: int,
    pub output: Seq<u8>,
}

/// The cell under the cursor.
pub open spec fn cell(st: State) -> u8 {
    st.cells[st.cursor]
}

/// Eight-bit increment with wraparound.
pub open spec fn wrap_inc(b: u8) -> u8 {
    if b == 255 {
        0
    } else {
        (b + 1) as u8
    }
}

/// Eight-bit decrement with wraparound.
pub open spec fn wrap_dec(b: u8) -> u8 {
    if b == 0 {
        255
    } else {
        (b - 1) as u8
    }
}

/// The first input byte at or after `read` that is not a newline,
/// paired with the position just after it; newline bytes are skipped, so
/// a newline can never be stored by the input instruction. `None` when
/// the input runs out first.
pub open spec fn next_input(input: Seq<u8>, read: int) -> Option<(int, u8)>
    decreases input.len() - read,
{
    if read < 0 || read >= input.len() {
        None
    } else if input[read] == 10 {
        next_input(input, read + 1)
    } else {
        Some((read + 1, input[read]))
    }
}

/// The decimal digits of a byte.
pub open spec fn dec_u8(b: u8) -> Seq<u8> {
    if b < 10 {
        seq![(48 + b) as u8]
    } else if b < 100 {
        seq![(48 + b / 10) as u8, (48 + b % 10) as u8]
    } else {
        seq![(48 + b / 100) as u8, (48 + (b / 10) % 10) as u8, (48 + b % 10) as u8]
    }
}

/// One printable byte standing for a token in a trace line.
pub open spec fn trace_char(t: Token) -> u8 {
    match t {
        Token::PlusOne => 43,
        Token::MinusOne => 45,
        Token::RightShift => 62,
        Token::LeftShift => 60,
        Token::RightBracket => 93,
        Token::LeftBracket => 91,
        Token::Output => 46,
        Token::Input => 44,
        Token::Slash => 47,
        Token::NewLine => 110,
        Token::EoF => 36,
        Token::WhiteSpace => 95,
        Token::Unknown(_) => 63,
    }
}

/// The trace emitted before an instruction when debug mode is on: a
/// line `tape: <cell>` for the cell under the cursor, then a line
/// `symbol: <token>` for the token about to execute.
pub open spec fn trace_of(st: State, t: Token) -> Seq<u8> {
    seq![116u8, 97u8, 112u8, 101u8, 58u8, 32u8] + dec_u8(cell(st)) + seq![
        10u8,
        115u8,
        121u8,
        109u8,
        98u8,
        111u8,
        108u8,
        58u8,
        32u8,
        trace_char(t),
        10u8,
    ]
}

/// What one instruction does to the state. In debug mode the trace goes
/// out first. `Err` carries the state at the failure: the input was
/// exhausted. Tokens that are not instructions do nothing.
pub open spec fn sym_step(debug: bool, t: Token, st: State) -> Result<State, State> {
    let st0 = if debug {
        State { output: st.output + trace_of(st, t), ..st }
    } else {
        st
    };
    match t {
        Token::PlusOne => Ok(State { cells: st0.cells.update(st0.cursor, wrap_inc(cell(st0))), ..st0 }),
        Token::MinusOne => Ok(
            State { cells: st0.cells.update(st0.cursor, wrap_dec(cell(st0))), ..st0 },
        ),
        Token::RightShift => Ok(
            if st0.cursor + 1 == st0.cells.len() {
                State { cells: st0.cells.push(0), cursor: st0.cursor + 1, ..st0 }
            } else {
                State { cursor: st0.cursor + 1, ..st0 }
            },
        ),
        Token::LeftShift => Ok(
            if st0.cursor == 0 {
                State { cells: seq![0u8] + st0.cells, ..st0 }
            } else {
                State { cursor: st0.cursor - 1, ..st0 }
            },
        ),
        Token::Input => match next_input(st0.input, st0.read) {
            Some(p) => Ok(State { cells: st0.cells.update(st0.cursor, p.1), read: p.0, ..st0 }),
            None => Err(State { read: st0.input.len() as int, ..st0 }),
        },
        Token::Output => Ok(State { output: st0.output.push(cell(st0)), ..st0 }),
        _ => Ok(st0),
    }
}

/// Runs one expression. `fuel` bounds how many times loops may re-enter
/// their bodies; `None` means the budget ran out. Within budget the
/// result is the final state and the budget that remains, or `Err` with
/// the state at which the input was exhausted.
pub open spec fn run_exp(debug: bool, e: Expression, st: State, fuel: nat) -> Option<
    (Result<State, State>, nat),
>
    decreases fuel, e, 1int,
{
    match e {
        Expression::Skip => Some((Ok(st), fuel)),
        Expression::Operator(t) => match sym_step(debug, t, st) {
            Ok(s2) => Some((Ok(s2), fuel)),
            Err(s2) => Some((Err(s2), fuel)),
        },
        Expression::Loop(body) => run_loop(debug, body@, st, fuel),
    }
}

/// Runs a loop with the given body: nothing when the cell under the
/// cursor is zero, otherwise the body once and then the loop again. Each
/// pass through the body costs one unit of fuel. The bound check on the
/// remaining budget keeps the recursion well-founded; the executable
/// engine never leaves a budget larger than it was handed.
pub open spec fn run_loop(debug: bool, body: Seq<Expression>, st: State, fuel: nat) -> Option<
    (Result<State, State>, nat),
>
    decreases fuel, body, 2int,
{
    if cell(st) == 0 {
        Some((Ok(st), fuel))
    } else if fuel == 0 {
        None
    } else {
        match run_seq(debug, body, 0, st, (fuel - 1) as nat) {
            None => None,
            Some((Err(s2), f2)) => Some((Err(s2), f2)),
            Some((Ok(s2), f2)) => if f2 < fuel {
                run_loop(debug, body, s2, f2)
            } else {
                None
            },
        }
    }
}

/// Runs the expressions of `es` from index `k` on, in order, threading
/// the state and the budget through. The bound check on the budget keeps
/// the recursion well-founded, as in `run_loop`.
pub open spec fn run_seq(debug: bool, es: Seq<Expression>, k: int, st: State, fuel: nat) -> Option<
    (Result<State, State>, nat),
>
    decreases fuel, es, es.len() - k + 1,
{
    if k < 0 || k >= es.len() {
        Some((Ok(st), fuel))
    } else {
        match run_exp(debug, es[k], st, fuel) {
            None => None,
            Some((Err(s2), f2)) => Some((Err(s2), f2)),
            Some((Ok(s2), f2)) => if f2 <= fuel {
                run_seq(debug, es, k + 1, s2, f2)
            } else {
                None
            },
        }
    }
}

// ------------------------------------------------------------------
// Laws.
// ------------------------------------------------------------------

/// Law: wraparound increment and decrement are inverses on every byte,
/// in both orders.
pub proof fn lemma_wrap_round_trip(b: u8)
    ensures
        wrap_dec(wrap_inc(b)) == b,
        wrap_inc(wrap_dec(b)) == b,
{
}

/// Law: incrementing and then decrementing the cell under the cursor
/// (or the reverse) leaves the whole state exactly as it was, whatever
/// the cell held.
pub proof fn lemma_inc_dec_identity(st: State)
    requires
        0 <= st.cursor < st.cells.len(),
    ensures
        sym_step(false, Token::PlusOne, st) matches Ok(s1) && sym_step(
            false,
            Token::MinusOne,
            s1,
        ) == Ok::<State, State>(st),
        sym_step(false, Token::MinusOne, st) matches Ok(s1) && sym_step(
            false,
            Token::PlusOne,
            s1,
        ) == Ok::<State, State>(st),
{
    let up = State { cells: st.cells.update(st.cursor, wrap_inc(cell(st))), ..st };
    let down = State { cells: st.cells.update(st.cursor, wrap_dec(cell(st))), ..st };
    assert(up.cells.update(st.cursor, wrap_dec(cell(up))) =~= st.cells);
    assert(down.cells.update(st.cursor, wrap_inc(cell(down))) =~= st.cells);
}

/// Law: with tracing off, an increment adds one to the cell under the
/// cursor with eight-bit wraparound and changes nothing else — not the
/// cursor, not the other cells, not the input, not the output; a
/// decrement subtracts one likewise.
pub proof fn lemma_inc_dec_effect(st: State)
    requires
        0 <= st.cursor < st.cells.len(),
    ensures
        sym_step(false, Token::PlusOne, st) matches Ok(s1) && cell(s1) == wrap_inc(cell(st))
            && s1.cursor == st.cursor && s1.cells.len() == st.cells.len() && (forall|i: int|
            0 <= i < st.cells.len() && i != st.cursor ==> s1.cells[i] == st.cells[i])
            && s1.input == st.input && s1.read == st.read && s1.output == st.output,
        sym_step(false, Token::MinusOne, st) matches Ok(s1) && cell(s1) == wrap_dec(cell(st))
            && s1.cursor == st.cursor && s1.cells.len() == st.cells.len() && (forall|i: int|
            0 <= i < st.cells.len() && i != st.cursor ==> s1.cells[i] == st.cells[i])
            && s1.input == st.input && s1.read == st.read && s1.output == st.output,
{
}

/// Law: a loop whose cell is zero on entry runs its body zero times and
/// leaves the whole state untouched, whatever the budget.
pub proof fn lemma_loop_zero_entry(debug: bool, body: Seq<Expression>, st: State, fuel: nat)
    requires
        cell(st) == 0,
    ensures
        run_loop(debug, body, st, fuel) == Some((Ok::<State, State>(st), fuel)),
{
}

/// Law: a `Skip` node has no effect on the state and costs nothing.
pub proof fn lemma_skip_no_effect(debug: bool, st: State, fuel: nat)
    ensures
        run_exp(debug, Expression::Skip, st, fuel) == Some((Ok::<State, State>(st), fuel)),
{
}

/// Law: a sequence of nothing but `Skip` nodes runs to completion and
/// leaves the state and the budget exactly as they were.
pub proof fn lemma_all_skip_no_effect(
    debug: bool,
    es: Seq<Expression>,
    k: int,
    st: State,
    fuel: nat,
)
    requires
        0 <= k,
        forall|i: int| 0 <= i < es.len() ==> es[i] == Expression::Skip,
    ensures
        run_seq(debug, es, k, st, fuel) == Some((Ok::<State, State>(st), fuel)),
    decreases es.len() - k,
{
    if k < es.len() {
        assert(es[k] == Expression::Skip);
        assert(run_exp(debug, es[k], st, fuel) == Some((Ok::<State, State>(st), fuel)));
        lemma_all_skip_no_effect(debug, es, k + 1, st, fuel);
    }
}

// ------------------------------------------------------------------
// Errors.
// ------------------------------------------------------------------

/// Why a run stopped early: the input ran dry during an input
/// instruction, or the machine's step budget ran out.
#[derive(Debug, PartialEq, Eq, Clone, Copy, Structural)]
pub enum RuntimeError {
    InputExhausted,
    OutOfSteps,
}

/// Everything that can stop `run`: the program does not parse, or an
/// instruction failed while executing.
#[derive(Debug, PartialEq, Eq)]
pub enum VmError {
    Parse(ParseError),
    Runtime(RuntimeError),
}

// ------------------------------------------------------------------
// The machine.
// ------------------------------------------------------------------

/// The execution engine: a tape, the input bytes with how many were
/// read, the output written so far, and a step budget that bounds how
/// many times loops may re-enter their bodies.
#[derive(Debug)]
pub struct VirtualMachine {
    tape: Tape,
    debug: bool,
    input: Vec<u8>,
    read: usize,
    output: Vec<u8>,
    steps: u64,
}

impl VirtualMachine {
    /// What a program run on this machine observes and changes.
    pub closed spec fn state(&self) -> State {
        State {
            cells: self.tape.cells(),
            cursor: self.tape.pos(),
            input: self.input@,
            read: self.read as int,
            output: self.output@,
        }
    }

    /// Whether a trace is written before each instruction.
    pub closed spec fn debug_mode(&self) -> bool {
        self.debug
    }

    /// The remaining step budget.
    pub closed spec fn fuel(&self) -> nat {
        self.steps as nat
    }

    /// The tape cursor addresses a valid cell and the input cannot have
    /// been read past its end.
    pub open spec fn wf(&self) -> bool {
        &&& 0 <= self.state().cursor < self.state().cells.len()
        &&& 0 <= self.state().read <= self.state().input.len()
    }

    /// A fresh machine without tracing: zeroed tape, the given bytes as
    /// input, nothing read, nothing written, the full step budget.
    pub fn new(input: Vec<u8>) -> (vm: VirtualMachine)
        ensures
            vm.wf(),
            !vm.debug_mode(),
            vm.fuel() == u64::MAX as nat,
            vm.state().cells == Seq::new(crate::tape::DEFAULT_TAP_SIZE as nat, |i: int| 0u8),
            vm.state().cursor == 0,
            vm.state().input == input@,
            vm.state().read == 0,
            vm.state().output == Seq::<u8>::empty(),
    {
        VirtualMachine {
            tape: Tape::default(),
            debug: false,
            input,
            read: 0,
            output: Vec::new(),
            steps: u64::MAX,
        }
    }

    /// A fresh machine like `new`, but tracing each instruction to the
    /// output before executing it.
    pub fn new_debug(input: Vec<u8>) -> (vm: VirtualMachine)
        ensures
            vm.wf(),
            vm.debug_mode(),
            vm.fuel() == u64::MAX as nat,
            vm.state().cells == Seq::new(crate::tape::DEFAULT_TAP_SIZE as nat, |i: int| 0u8),
            vm.state().cursor == 0,
            vm.state().input == input@,
            vm.state().read == 0,
            vm.state().output == Seq::<u8>::empty(),
    {
        VirtualMachine {
            tape: Tape::default(),
            debug: true,
            input,
            read: 0,
            output: Vec::new(),
            steps: u64::MAX,
        }
    }

    /// The output written so far.
    pub fn output(&self) -> (output: &Vec<u8>)
        ensures
            output@ == self.state().output,
    {
        &self.output
    }

    /// Writes the debug trace for one instruction.
    fn emit_trace(&mut self, token: Token)
        requires
            old(self).wf(),
        ensures
            final(self).wf(),
            final(self).debug_mode() == old(self).debug_mode(),
            final(self).fuel() == old(self).fuel(),
            final(self).state() == (State {
                output: old(self).state().output + trace_of(old(self).state(), token),
                ..old(self).state()
            }),
    {
        // "tape: "
        self.output.push(116);
        self.output.push(97);
        self.output.push(112);
        self.output.push(101);
        self.output.push(58);
        self.output.push(32);
        let value = self.tape.get();
        if value >= 100 {
            self.output.push(48 + value / 100);
            self.output.push(48 + (value / 10) % 10);
            self.output.push(48 + value % 10);
        } else if value >= 10 {
            self.output.push(48 + value / 10);
            self.output.push(48 + value % 10);
        } else {
            self.output.push(48 + value);
        }
        // "\nsymbol: "
        self.output.push(10);
        self.output.push(115);
        self.output.push(121);
        self.output.push(109);
        self.output.push(98);
        self.output.push(111);
        self.output.push(108);
        self.output.push(58);
        self.output.push(32);
        let c = match token {
            Token::PlusOne => 43,
            Token::MinusOne => 45,
            Token::RightShift => 62,
            Token::LeftShift => 60,
            Token::RightBracket => 93,
            Token::LeftBracket => 91,
            Token::Output => 46,
            Token::Input => 44,
            Token::Slash => 47,
            Token::NewLine => 110,
            Token::EoF => 36,
            Token::WhiteSpace => 95,
            Token::Unknown(_) => 63,
        };
        self.output.push(c);
        self.output.push(10);
        proof {
            assert(self.output@ =~= old(self).state().output + trace_of(
                old(self).state(),
                token,
            ));
        }
    }

    /// Executes one instruction token against the tape and the two byte
    /// buffers, exactly as `sym_step` says.
    #[verifier::loop_isolation(false)]
    fn execute_symbol(&mut self, token: Token) -> (r: Result<(), RuntimeError>)
        requires
            old(self).wf(),
        ensures
            final(self).wf(),
            final(self).debug_mode() == old(self).debug_mode(),
            final(self).fuel() == old(self).fuel(),
            r is Ok ==> sym_step(old(self).debug_mode(), token, old(self).state()) == Ok::<
                State,
                State,
            >(final(self).state()),
            r matches Err(e) ==> e == RuntimeError::InputExhausted && sym_step(
                old(self).debug_mode(),
                token,
                old(self).state(),
            ) == Err::<State, State>(final(self).state()),
    {
        if self.debug {
            self.emit_trace(token);
        }
        let ghost st0 = self.state();
        match token {
            Token::PlusOne => {
                let value = self.tape.get();
                self.tape.set(value.wrapping_add(1));
                Ok(())
            },
            Token::MinusOne => {
                let value = self.tape.get();
                self.tape.set(value.wrapping_sub(1));
                Ok(())
            },
            Token::RightShift => {
                self.tape.move_cursor(Direction::Right);
                Ok(())
            },
            Token::LeftShift => {
                self.tape.move_cursor(Direction::Left);
                Ok(())
            },
            Token::Input => {
                loop
                    invariant
                        self.wf(),
                        self.debug == old(self).debug,
                        self.steps == old(self).steps,
                        self.state().cells == st0.cells,
                        self.state().cursor == st0.cursor,
                        self.state().input == st0.input,
                        self.state().output == st0.output,
                        st0.read <= self.state().read,
                        next_input(st0.input, st0.read) == next_input(
                            self.state().input,
                            self.state().read,
                        ),
                    decreases self.input@.len() - self.read,
                {
                    if self.read < self.input.len() {
                        let b = self.input[self.read];
                        self.read = self.read + 1;
                        if b != 10 {
                            self.tape.set(b);
                            return Ok(());
                        }
                    } else {
                        return Err(RuntimeError::InputExhausted);
                    }
                }
            },
            Token::Output => {
                let value = self.tape.get();
                self.output.push(value);
                Ok(())
            },
            _ => Ok(()),
        }
    }

    /// Executes a sequence of expression nodes in order, exactly as
    /// `run_seq` says: the final state on success, the state at the
    /// failure when the input ran dry, and `OutOfSteps` exactly when the
    /// semantics gives no result within the budget.
    #[verifier::loop_isolation(false)]
    fn execute_ast(&mut self, ast: &Vec<Expression>) -> (r: Result<(), RuntimeError>)
        requires
            old(self).wf(),
        ensures
            final(self).wf(),
            final(self).debug_mode() == old(self).debug_mode(),
            final(self).fuel() <= old(self).fuel(),
            r is Ok ==> run_seq(
                old(self).debug_mode(),
                ast@,
                0,
                old(self).state(),
                old(self).fuel(),
            ) == Some((Ok::<State, State>(final(self).state()), final(self).fuel())),
            r == Err::<(), RuntimeError>(RuntimeError::InputExhausted) ==> run_seq(
                old(self).debug_mode(),
                ast@,
                0,
                old(self).state(),
                old(self).fuel(),
            ) == Some((Err::<State, State>(final(self).state()), final(self).fuel())),
            r == Err::<(), RuntimeError>(RuntimeError::OutOfSteps) ==> run_seq(
                old(self).debug_mode(),
                ast@,
                0,
                old(self).state(),
                old(self).fuel(),
            ) is None && final(self).fuel() == 0,
        decreases self.fuel(), ast@, 0int,
    {
        let ghost debug = self.debug_mode();
        let ghost st0 = self.state();
        let ghost f0 = self.fuel();
        let mut i: usize = 0;
        while i < ast.len()
            invariant
                debug == old(self).debug_mode(),
                st0 == old(self).state(),
                f0 == old(self).fuel(),
                self.wf(),
                i <= ast@.len(),
                self.debug_mode() == debug,
                self.fuel() <= f0,
                run_seq(debug, ast@, 0, st0, f0) == run_seq(
                    debug,
                    ast@,
                    i as int,
                    self.state(),
                    self.fuel(),
                ),
            decreases ast@.len() - i,
        {
            let ghost st_pre = self.state();
            let ghost f_pre = self.fuel();
            match &ast[i] {
                Expression::Loop(body) => {
                    proof {
                        assert(run_exp(debug, ast@[i as int], st_pre, f_pre) == run_loop(
                            debug,
                            body@,
                            st_pre,
                            f_pre,
                        ));
                    }
                    match self.execute_loop(body) {
                        Ok(()) => {},
                        Err(e) => {
                            return Err(e);
                        },
                    }
                },
                Expression::Operator(t) => {
                    proof {
                        assert(run_exp(debug, ast@[i as int], st_pre, f_pre) == (
                        match sym_step(debug, *t, st_pre) {
                            Ok(s2) => Some((Ok::<State, State>(s2), f_pre)),
                            Err(s2) => Some((Err::<State, State>(s2), f_pre)),
                        }));
                    }
                    match self.execute_symbol(*t) {
                        Ok(()) => {},
                        Err(e) => {
                            return Err(e);
                        },
                    }
                },
                Expression::Skip => {},
            }
            i = i + 1;
        }
        Ok(())
    }

    /// Executes a loop with the given body, exactly as `run_loop` says:
    /// while the cell under the cursor is nonzero, the whole body, then
    /// the check again. Each pass costs one step of the budget.
    #[verifier::loop_isolation(false)]
    fn execute_loop(&mut self, ast: &Vec<Expression>) -> (r: Result<(), RuntimeError>)
        requires
            old(self).wf(),
        ensures
            final(self).wf(),
            final(self).debug_mode() == old(self).debug_mode(),
            final(self).fuel() <= old(self).fuel(),
            r is Ok ==> run_loop(
                old(self).debug_mode(),
                ast@,
                old(self).state(),
                old(self).fuel(),
            ) == Some((Ok::<State, State>(final(self).state()), final(self).fuel())),
            r == Err::<(), RuntimeError>(RuntimeError::InputExhausted) ==> run_loop(
                old(self).debug_mode(),
                ast@,
                old(self).state(),
                old(self).fuel(),
            ) == Some((Err::<State, State>(final(self).state()), final(self).fuel())),
            r == Err::<(), RuntimeError>(RuntimeError::OutOfSteps) ==> run_loop(
                old(self).debug_mode(),
                ast@,
                old(self).state(),
                old(self).fuel(),
            ) is None && final(self).fuel() == 0,
        decreases self.fuel(), ast@, 1int,
    {
        let ghost debug = self.debug_mode();
        let ghost st0 = self.state();
        let ghost f0 = self.fuel();
        while self.tape.get() != 0
            invariant
                debug == old(self).debug_mode(),
                st0 == old(self).state(),
                f0 == old(self).fuel(),
                self.wf(),
                self.debug_mode() == debug,
                self.fuel() <= f0,
                run_loop(debug, ast@, st0, f0) == run_loop(
                    debug,
                    ast@,
                    self.state(),
                    self.fuel(),
                ),
            decreases self.fuel(),
        {
            if self.steps == 0 {
                return Err(RuntimeError::OutOfSteps);
            }
            let ghost st_pre = self.state();
            let ghost f_pre = self.fuel();
            self.steps = self.steps - 1;
            match self.execute_ast(ast) {
                Ok(()) => {
                    proof {
                        assert(run_loop(debug, ast@, st_pre, f_pre) == run_loop(
                            debug,
                            ast@,
                            self.state(),
                            self.fuel(),
                        ));
                    }
                },
                Err(e) => {
                    return Err(e);
                },
            }
        }
        Ok(())
    }

    /// Parses the source text, then executes it. A program that does not
    /// parse leaves the machine untouched; one that parses runs exactly
    /// as the semantics of its parse tree says, on this machine's input,
    /// output, and budget.
    pub fn run(&mut self, source_code: &str) -> (r: Result<(), VmError>)
        requires
            old(self).wf(),
        ensures
            final(self).wf(),
            final(self).debug_mode() == old(self).debug_mode(),
            (r matches Err(e) && e matches VmError::Parse(_)) <==> star_end(
                tokens_of(source_code@),
                0,
            ) != tokens_of(source_code@).len(),
            (r matches Err(e) && e matches VmError::Parse(_)) ==> final(self).state() == old(
                self,
            ).state() && final(self).fuel() == old(self).fuel(),
            r matches Err(VmError::Parse(reason)) ==> reason == exp_error(
                tokens_of(source_code@),
                star_end(tokens_of(source_code@), 0),
            ),
            star_end(tokens_of(source_code@), 0) == tokens_of(source_code@).len()
                ==> exists|ast: Seq<Expression>|
                {
                    &&& #[trigger] exps_match(
                        tokens_of(source_code@),
                        0,
                        ast,
                        0,
                        tokens_of(source_code@).len() as int,
                    )
                    &&& match r {
                        Ok(()) => run_seq(
                            old(self).debug_mode(),
                            ast,
                            0,
                            old(self).state(),
                            old(self).fuel(),
                        ) == Some((Ok::<State, State>(final(self).state()), final(self).fuel())),
                        Err(VmError::Runtime(RuntimeError::InputExhausted)) => run_seq(
                            old(self).debug_mode(),
                            ast,
                            0,
                            old(self).state(),
                            old(self).fuel(),
                        ) == Some((Err::<State, State>(final(self).state()), final(self).fuel())),
                        Err(VmError::Runtime(RuntimeError::OutOfSteps)) => run_seq(
                            old(self).debug_mode(),
                            ast,
                            0,
                            old(self).state(),
                            old(self).fuel(),
                        ) is None,
                        Err(VmError::Parse(_)) => false,
                    }
                },
    {
        match Program::parse(source_code) {
            Err(e) => Err(VmError::Parse(e)),
            Ok(program) => {
                proof {
                    assert(exps_match(
                        tokens_of(source_code@),
                        0,
                        program.ast@,
                        0,
                        tokens_of(source_code@).len() as int,
                    ));
                }
                match self.execute_ast(&program.ast) {
                    Ok(()) => Ok(()),
                    Err(e) => Err(VmError::Runtime(e)),
                }
            },
        }
    }
}

} // verus!
