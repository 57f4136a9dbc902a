//! The first stage of the assembler: turning source lines into tokens.
//! No token kind is recognised yet, so any character in the source is an
//! error and only blank sources lex.
use vstd::prelude::*;
use vstd::string::*;
use crate::opcode::Opcode;

verus! {

/// A token of assembly source.
#[derive(Debug, Clone, Copy, PartialEq, Eq, Structural)]
pub enum Token {
    /// An instruction mnemonic with its operands.
    Op(Opcode),
}

impl Token {
    /// The token for an instruction.
    pub fn from_opcode(op: Opcode) -> (t: Self)
        ensures
            t == Token::Op(op),
    {
        Token::Op(op)
    }
}

/// Why source could not be lexed.
#[derive(Debug, Clone, Copy, PartialEq, Eq, Structural)]
pub enum LexError {
    /// A character that begins no token.
    Unrecognized(char),
}

/// The tokens still possible at the current position, and the characters
/// read towards them.
struct Lattice {
    options: Vec<Token>,
    state: Vec<char>,
}

/// A lexed source: its tokens in order.
pub struct Lexer {
    lattice: Lattice,
    output_tokens: Vec<Token>,
}

/// Whether every line is empty.
pub open spec fn all_blank(lines: Seq<Seq<char>>) -> bool {
    forall|i: int| 0 <= i < lines.len() ==> (#[trigger] lines[i]).len() == 0
}

impl Lexer {
    /// The tokens produced so far.
    pub closed spec fn tokens(&self) -> Seq<Token> {
        self.output_tokens@
    }

    /// A lexer that has read nothing.
    fn new() -> (l: Self)
        ensures
            l.tokens() == Seq::<Token>::empty(),
    {
        Lexer {
            lattice: Lattice { options: Vec::new(), state: Vec::new() },
            output_tokens: Vec::new(),
        }
    }

    /// Lexes the source, line by line.
    pub fn lex(lines: &Vec<String>) -> (r: Result<Self, LexError>)
        ensures
            r is Ok <==> all_blank(lines@.map_values(|l: String| l@)),
            r matches Ok(l) ==> l.tokens() == Seq::<Token>::empty(),
            r matches Err(LexError::Unrecognized(c)) ==> exists|i: int|
                0 <= i < lines@.len() && lines@[i]@.len() > 0 && c == lines@[i]@[0] && forall|
                    j: int,
                | 0 <= j < i ==> (#[trigger] lines@[j])@.len() == 0,
    {
        let mut ldata = Lexer::new();
        let mut i: usize = 0;
        while i < lines.len()
            invariant
                i <= lines@.len(),
                ldata.tokens() == Seq::<Token>::empty(),
                forall|j: int| 0 <= j < i ==> (#[trigger] lines@[j])@.len() == 0,
            decreases lines@.len() - i,
        {
            if let Err(e) = ldata.lex_line(lines[i].as_str()) {
                assert(!all_blank(lines@.map_values(|l: String| l@))) by {
                    assert(lines@.map_values(|l: String| l@)[i as int].len() > 0);
                }
                return Err(e);
            }
            i += 1;
        }
        assert(all_blank(lines@.map_values(|l: String| l@)));
        Ok(ldata)
    }

    /// Lexes one line.
    fn lex_line(&mut self, line: &str) -> (r: Result<(), LexError>)
        requires
            old(self).tokens() == Seq::<Token>::empty(),
        ensures
            final(self).tokens() == Seq::<Token>::empty(),
            line@.len() == 0 ==> r is Ok,
            line@.len() > 0 ==> r == Err::<(), LexError>(LexError::Unrecognized(line@[0])),
    {
        let n = line.unicode_len();
        let mut i: usize = 0;
        while i < n
            invariant
                i == 0,
                n == line@.len(),
                self.tokens() == Seq::<Token>::empty(),
            decreases n - i,
        {
            let ch = line.get_char(i);
            if let Some(opcode) = self.try_opcode(ch) {
                self.add_token(Token::from_opcode(opcode));
                i += 1;
                continue;
            }
            return Err(LexError::Unrecognized(ch));
        }
        Ok(())
    }

    /// Appends a token to the output.
    fn add_token(&mut self, t: Token)
        ensures
            final(self).tokens() == old(self).tokens().push(t),
    {
        self.output_tokens.push(t);
    }

    /// The instruction that `ch` completes, given the characters read so
    /// far; none is recognised yet.
    fn try_opcode(&mut self, ch: char) -> (r: Option<Opcode>)
        ensures
            r is None,
            final(self).tokens() == old(self).tokens(),
    {
        None
    }
}

} // verus!
