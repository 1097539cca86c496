//! The command-line actor: accumulates Command-mode keystrokes and parses
//! the buffer into a semantic operation on execute.
//!
//! `"w"` saves, `"q"` quits, `"wq"` does both; a buffer of digits jumps to
//! that (one-based) line; `"e <path>"` opens a file; anything else is
//! silently dropped.  The buffer is cleared after every execute attempt,
//! whatever its outcome.

use vstd::prelude::*;

use crate::coordinate::Point;
use crate::mode::MODE;
use crate::router::OperationCode;

verus! {

/// Relies on String::push: appends the character to the end of the string.
pub assume_specification[ String::push ](s: &mut String, ch: char)
    ensures
        final(s)@ == old(s)@.push(ch),
;

/// An ASCII decimal digit.
pub open spec fn is_digit(c: char) -> bool {
    0x30 <= c as u32 <= 0x39
}

/// Its numeric value.
pub open spec fn digit_val(c: char) -> int {
    c as u32 - 0x30
}

/// The number a digit string denotes.
pub open spec fn parsed_num(s: Seq<char>) -> int
    decreases s.len(),
{
    if s.len() == 0 {
        0
    } else {
        parsed_num(s.drop_last()) * 10 + digit_val(s.last())
    }
}

pub open spec fn all_digits(s: Seq<char>) -> bool {
    forall|i: int| 0 <= i < s.len() ==> is_digit(#[trigger] s[i])
}

/// A buffer that parses entirely as a line number: non-empty, digits only,
/// and within the range a signed 32-bit parse accepts.
pub open spec fn is_jump_buffer(s: Seq<char>) -> bool {
    s.len() > 0 && all_digits(s) && parsed_num(s) <= i32::MAX
}

/// Index of the first blank in a token buffer, or its length.
pub open spec fn first_space(s: Seq<char>) -> int
    decreases s.len(),
{
    if s.len() == 0 {
        0
    } else if s[0] == ' ' {
        0
    } else {
        1 + first_space(s.skip(1))
    }
}

/// An open command: the first token is exactly `e` and a second token
/// follows.
pub open spec fn is_open_buffer(s: Seq<char>) -> bool {
    s.len() >= 2 && s[0] == 'e' && s[1] == ' '
}

/// The path of an open command: the second blank-separated token.
pub open spec fn open_path_spec(s: Seq<char>) -> Seq<char> {
    s.skip(2).take(first_space(s.skip(2)))
}

/// What executing a command buffer returns.
pub open spec fn exec_command_result_ok(s: Seq<char>, r: OperationCode) -> bool {
    if s == seq!['w', 'q'] {
        r == OperationCode::SaveAndQuit
    } else if s == seq!['w'] {
        r == OperationCode::Save
    } else if s == seq!['q'] {
        r == OperationCode::Quit
    } else if is_jump_buffer(s) {
        r == OperationCode::Jump(Point { column: 0, row: parsed_num(s) as usize })
    } else if is_open_buffer(s) {
        r matches OperationCode::OpenFile(p) && p@ == open_path_spec(s)
    } else {
        r == OperationCode::DoNothing
    }
}

proof fn lemma_parsed_num_nonneg(s: Seq<char>)
    requires
        all_digits(s),
    ensures
        parsed_num(s) >= 0,
    decreases s.len(),
{
    if s.len() > 0 {
        assert(all_digits(s.drop_last())) by {
            assert forall|i: int| 0 <= i < s.drop_last().len() implies is_digit(
                #[trigger] s.drop_last()[i],
            ) by {
                assert(s.drop_last()[i] == s[i]);
            }
        }
        lemma_parsed_num_nonneg(s.drop_last());
    }
}

proof fn lemma_parsed_num_prefix(s: Seq<char>, k: int)
    requires
        all_digits(s),
        0 <= k <= s.len(),
    ensures
        parsed_num(s) >= parsed_num(s.take(k)),
    decreases s.len() - k,
{
    if k < s.len() {
        lemma_parsed_num_prefix(s, k + 1);
        assert(s.take(k + 1).drop_last() =~= s.take(k));
        assert(s.take(k + 1).last() == s[k]);
        assert(all_digits(s.take(k))) by {
            assert forall|i: int| 0 <= i < k implies is_digit(#[trigger] s.take(k)[i]) by {
                assert(s.take(k)[i] == s[i]);
            }
        }
        lemma_parsed_num_nonneg(s.take(k));
        assert(parsed_num(s.take(k + 1)) >= parsed_num(s.take(k)));
    } else {
        assert(s.take(k) =~= s);
    }
}

proof fn lemma_first_space_is(s: Seq<char>, k: int)
    requires
        0 <= k <= s.len(),
        forall|m: int| 0 <= m < k ==> s[m] != ' ',
        k == s.len() || s[k] == ' ',
    ensures
        first_space(s) == k,
    decreases k,
{
    if s.len() == 0 {
    } else if k == 0 {
    } else {
        assert(s[0] != ' ');
        assert forall|m: int| 0 <= m < k - 1 implies s.skip(1)[m] != ' ' by {
            assert(s.skip(1)[m] == s[m + 1]);
        }
        if k - 1 < s.skip(1).len() {
            assert(s.skip(1)[k - 1] == s[k]);
        }
        lemma_first_space_is(s.skip(1), k - 1);
    }
}

/// Parse the buffer as a line number; `None` unless it is non-empty, all
/// digits, and in range.
fn parse_number(inputs: &Vec<char>) -> (r: Option<usize>)
    ensures
        is_jump_buffer(inputs@) ==> r == Some(parsed_num(inputs@) as usize),
        !is_jump_buffer(inputs@) ==> r == None::<usize>,
{
    if inputs.len() == 0 {
        return None;
    }
    let mut val: usize = 0;
    let mut i: usize = 0;
    proof {
        assert(inputs@.take(0) =~= Seq::<char>::empty());
    }
    while i < inputs.len()
        invariant
            i <= inputs@.len(),
            all_digits(inputs@.take(i as int)),
            val == parsed_num(inputs@.take(i as int)),
            val <= i32::MAX,
        decreases inputs@.len() - i,
    {
        let c = inputs[i];
        let d = c as u32;
        if d < 0x30 || d > 0x39 {
            proof {
                assert(!is_digit(inputs@[i as int]));
            }
            return None;
        }
        let dv = (d - 0x30) as usize;
        if val > (0x7fffffff - dv) / 10 {
            proof {
                assert(all_digits(inputs@.take(i + 1))) by {
                    assert forall|m: int| 0 <= m < i + 1 implies is_digit(
                        #[trigger] inputs@.take(i + 1)[m],
                    ) by {
                        if m < i {
                            assert(inputs@.take(i + 1)[m] == inputs@.take(i as int)[m]);
                        } else {
                            assert(inputs@.take(i + 1)[m] == inputs@[i as int]);
                        }
                    }
                }
                assert(inputs@.take(i + 1).drop_last() =~= inputs@.take(i as int));
                assert(inputs@.take(i + 1).last() == inputs@[i as int]);
                assert(parsed_num(inputs@.take(i + 1)) > i32::MAX);
                if is_jump_buffer(inputs@) {
                    lemma_parsed_num_prefix(inputs@, i + 1);
                }
            }
            return None;
        }
        proof {
            assert(inputs@.take(i + 1).drop_last() =~= inputs@.take(i as int));
            assert(inputs@.take(i + 1).last() == inputs@[i as int]);
            assert(all_digits(inputs@.take(i + 1))) by {
                assert forall|m: int| 0 <= m < i + 1 implies is_digit(
                    #[trigger] inputs@.take(i + 1)[m],
                ) by {
                    if m < i {
                        assert(inputs@.take(i + 1)[m] == inputs@.take(i as int)[m]);
                    } else {
                        assert(inputs@.take(i + 1)[m] == inputs@[i as int]);
                    }
                }
            }
        }
        val = val * 10 + dv;
        i += 1;
    }
    proof {
        assert(inputs@.take(i as int) =~= inputs@);
    }
    Some(val)
}

/// One-based jump targets are clamped to `[1, line_count]` and returned as a
/// zero-based row; an empty document pins the row to zero.
pub fn resolve_jump(target: usize, line_count: usize) -> (row: usize)
    ensures
        line_count == 0 ==> row == 0,
        line_count > 0 ==> row as int == if target > line_count {
            line_count - 1
        } else if target < 1 {
            0
        } else {
            target - 1
        },
{
    if line_count == 0 {
        0
    } else if target > line_count {
        line_count - 1
    } else if target < 1 {
        0
    } else {
        target - 1
    }
}

/// The command-line buffer.
pub struct Command {
    inputs: Vec<char>,
}

impl View for Command {
    type V = Seq<char>;

    closed spec fn view(&self) -> Seq<char> {
        self.inputs@
    }
}

impl Command {
    pub fn new() -> (c: Command)
        ensures
            c@ == Seq::<char>::empty(),
    {
        let c = Command { inputs: vec![] };
        proof {
            assert(c@ =~= Seq::<char>::empty());
        }
        c
    }

    /// One Command-mode keystroke: the enter control code executes the
    /// buffer, the backspace control code erases the last character, escape
    /// leaves Command mode, and anything else is appended to the buffer.
    pub fn proc_command(&mut self, code: char) -> (r: OperationCode)
        ensures
            code == '\u{0003}' ==> exec_command_result_ok(old(self)@, r) && final(self)@
                == Seq::<char>::empty(),
            code == '\u{0008}' ==> r == OperationCode::DoNothing && final(self)@ == (
            if old(self)@.len() > 0 {
                old(self)@.drop_last()
            } else {
                old(self)@
            }),
            code == '\u{001b}' ==> r == OperationCode::ChangeMode(MODE::Normal) && final(self)@
                == old(self)@,
            code != '\u{0003}' && code != '\u{0008}' && code != '\u{001b}' ==> r
                == OperationCode::DoNothing && final(self)@ == old(self)@.push(code),
    {
        if code as u32 == 0x03 {
            self.exec_command()
        } else if code as u32 == 0x08 {
            let _ = self.inputs.pop();
            OperationCode::DoNothing
        } else if code as u32 == 0x1b {
            OperationCode::ChangeMode(MODE::Normal)
        } else {
            self.inputs.push(code);
            OperationCode::DoNothing
        }
    }

    /// The buffer's current content, for the info line.
    pub fn get_command_buf(&self) -> (ret: String)
        ensures
            ret@ == self@,
    {
        let mut ret = String::new();
        let mut i: usize = 0;
        proof {
            assert(ret@ =~= self@.take(0));
        }
        while i < self.inputs.len()
            invariant
                i <= self@.len(),
                ret@ == self@.take(i as int),
            decreases self@.len() - i,
        {
            ret.push(self.inputs[i]);
            proof {
                assert(self@.take(i + 1) =~= self@.take(i as int).push(self@[i as int]));
            }
            i += 1;
        }
        proof {
            assert(self@.take(i as int) =~= self@);
        }
        ret
    }

    /// Execute the buffer, as [`exec_command_result_ok`] describes, and
    /// clear it whatever the outcome.
    pub fn exec_command(&mut self) -> (r: OperationCode)
        ensures
            exec_command_result_ok(old(self)@, r),
            final(self)@ == Seq::<char>::empty(),
    {
        let r = if self.inputs.len() == 2 && self.inputs[0] == 'w' && self.inputs[1] == 'q' {
            proof {
                assert(self@ =~= seq!['w', 'q']);
            }
            OperationCode::SaveAndQuit
        } else if self.inputs.len() == 1 && self.inputs[0] == 'w' {
            proof {
                assert(self@ =~= seq!['w']);
            }
            OperationCode::Save
        } else if self.inputs.len() == 1 && self.inputs[0] == 'q' {
            proof {
                assert(self@ =~= seq!['q']);
            }
            OperationCode::Quit
        } else {
            proof {
                assert(self@ != seq!['w', 'q'] && self@ != seq!['w'] && self@ != seq!['q']) by {
                    if self@.len() == 2 && self@[0] == 'w' && self@[1] == 'q' {
                        assert(self@ =~= seq!['w', 'q']);
                        assert(false);
                    }
                    if self@.len() == 1 && self@[0] == 'w' {
                        assert(self@ =~= seq!['w']);
                        assert(false);
                    }
                    if self@.len() == 1 && self@[0] == 'q' {
                        assert(self@ =~= seq!['q']);
                        assert(false);
                    }
                    assert(seq!['w', 'q'].len() == 2);
                    assert(seq!['w'].len() == 1);
                    assert(seq!['q'].len() == 1);
                }
            }
            match parse_number(&self.inputs) {
                Some(n) => OperationCode::Jump(Point { column: 0, row: n }),
                None => {
                    if self.inputs.len() >= 2 && self.inputs[0] == 'e' && self.inputs[1] == ' ' {
                        let mut path = String::new();
                        let mut j: usize = 2;
                        let ghost rest = self@.skip(2);
                        proof {
                            assert(path@ =~= rest.take(0));
                        }
                        while j < self.inputs.len() && self.inputs[j] != ' '
                            invariant
                                2 <= j <= self@.len(),
                                rest == self@.skip(2),
                                path@ == rest.take(j - 2),
                                forall|m: int| 0 <= m < j - 2 ==> rest[m] != ' ',
                            decreases self@.len() - j,
                        {
                            path.push(self.inputs[j]);
                            proof {
                                assert(rest[j - 2] == self@[j as int]);
                                assert(rest.take(j - 1) =~= rest.take(j - 2).push(rest[j - 2]));
                            }
                            j += 1;
                        }
                        proof {
                            if j - 2 < rest.len() {
                                assert(rest[j - 2] == self@[j as int]);
                            }
                            lemma_first_space_is(rest, j - 2);
                        }
                        OperationCode::OpenFile(path)
                    } else {
                        OperationCode::DoNothing
                    }
                },
            }
        };
        self.inputs.clear();
        r
    }
}

} // verus!
