//! The command grammar: one line of input splits on ASCII whitespace and
//! yields exactly one [`Command`] or exactly one [`CommandError`]. The
//! recipient of a payment is parsed by the wallet library's textual
//! public-key encoding and carried as its serialized byte form.

use vstd::prelude::*;
use vstd::string::StrSliceExecFns;
use vstd::string::StringExecFns;
use crate::numeral::is_u64_numeral;
use crate::numeral::dec_value;
use crate::numeral::unsigned_digits;
use crate::numeral::parse_u64;

verus! {

/// The characters on which a command line splits: ASCII whitespace.
pub open spec fn is_ascii_ws(c: char) -> bool {
    c == ' ' || c == '\t' || c == '\n' || c == '\u{000c}' || c == '\r'
}

/// The first position at or after `i` that ends the word starting at `i`:
/// the next whitespace character, or the end of the line.
pub open spec fn word_end(s: Seq<char>, i: int) -> int
    decreases s.len() - i,
{
    if i < 0 || i >= s.len() || is_ascii_ws(s[i]) {
        i
    } else {
        word_end(s, i + 1)
    }
}

proof fn lemma_word_end_bounds(s: Seq<char>, i: int)
    requires
        0 <= i <= s.len(),
    ensures
        i <= word_end(s, i) <= s.len(),
        i < s.len() && !is_ascii_ws(s[i]) ==> i < word_end(s, i),
    decreases s.len() - i,
{
    if i < s.len() && !is_ascii_ws(s[i]) {
        lemma_word_end_bounds(s, i + 1);
    }
}

/// `word_end` is the unique position `j` such that everything in `[i, j)` is
/// non-whitespace and `j` is the line's end or a whitespace character.
proof fn lemma_word_end_at(s: Seq<char>, i: int, j: int)
    requires
        0 <= i <= j <= s.len(),
        forall|k: int| i <= k < j ==> !is_ascii_ws(#[trigger] s[k]),
        j == s.len() || is_ascii_ws(s[j]),
    ensures
        word_end(s, i) == j,
    decreases j - i,
{
    if i < j {
        lemma_word_end_at(s, i + 1, j);
    }
}

/// The whitespace-delimited words of `s`, from position `i` on.
pub open spec fn tokens_from(s: Seq<char>, i: int) -> Seq<Seq<char>>
    decreases s.len() - i,
    via tokens_from_decreases
{
    if i < 0 || i >= s.len() {
        Seq::empty()
    } else if is_ascii_ws(s[i]) {
        tokens_from(s, i + 1)
    } else {
        seq![s.subrange(i, word_end(s, i))] + tokens_from(s, word_end(s, i))
    }
}

#[via_fn]
proof fn tokens_from_decreases(s: Seq<char>, i: int) {
    if 0 <= i < s.len() && !is_ascii_ws(s[i]) {
        lemma_word_end_bounds(s, i);
    }
}

/// The whitespace-delimited words of a whole line.
pub open spec fn spec_tokens(s: Seq<char>) -> Seq<Seq<char>> {
    tokens_from(s, 0)
}

/// Whether `c` is ASCII whitespace, decided in executable code.
pub fn is_ws_char(c: char) -> (r: bool)
    ensures
        r == is_ascii_ws(c),
{
    c == ' ' || c == '\t' || c == '\n' || c == '\u{000c}' || c == '\r'
}

/// Splits `s` into its whitespace-delimited words.
pub fn tokenize<'a>(s: &'a str) -> (toks: Vec<&'a str>)
    ensures
        toks.deep_view() == spec_tokens(s@),
        toks@.len() == spec_tokens(s@).len(),
        forall|k: int| 0 <= k < toks@.len() ==> toks@[k]@ == spec_tokens(s@)[k],
{
    let n = s.unicode_len();
    let mut toks: Vec<&'a str> = Vec::new();
    let mut i: usize = 0;
    proof {
        assert(toks.deep_view() =~= Seq::<Seq<char>>::empty());
    }
    while i < n
        invariant
            i <= n,
            n == s@.len(),
            spec_tokens(s@) == toks.deep_view() + tokens_from(s@, i as int),
        decreases n - i,
    {
        let c = s.get_char(i);
        if is_ws_char(c) {
            i += 1;
        } else {
            let start = i;
            let mut j = i;
            loop
                invariant
                    start <= j <= n,
                    n == s@.len(),
                    forall|k: int| start <= k < j ==> !is_ascii_ws(#[trigger] s@[k]),
                ensures
                    start <= j <= n,
                    forall|k: int| start <= k < j ==> !is_ascii_ws(#[trigger] s@[k]),
                    j == n || is_ascii_ws(s@[j as int]),
                decreases n - j,
            {
                if j == n {
                    break;
                }
                let c2 = s.get_char(j);
                if is_ws_char(c2) {
                    break;
                }
                j += 1;
            }
            proof {
                lemma_word_end_at(s@, start as int, j as int);
            }
            let ghost old_dv = toks.deep_view();
            let tok = s.substring_char(start, j);
            toks.push(tok);
            proof {
                assert(toks.deep_view() =~= old_dv.push(tok@));
                assert(old_dv.push(tok@) + tokens_from(s@, j as int) =~= old_dv + (seq![
                    s@.subrange(start as int, j as int),
                ] + tokens_from(s@, j as int)));
            }
            i = j;
        }
    }
    proof {
        assert(spec_tokens(s@) =~= toks.deep_view());
    }
    toks
}

/// Character-by-character string equality.
pub fn str_eq(a: &str, b: &str) -> (r: bool)
    ensures
        r == (a@ == b@),
{
    let na = a.unicode_len();
    let nb = b.unicode_len();
    if na != nb {
        return false;
    }
    let mut i: usize = 0;
    while i < na
        invariant
            i <= na,
            na == a@.len(),
            na == b@.len(),
            forall|k: int| 0 <= k < i ==> a@[k] == b@[k],
        decreases na - i,
    {
        if a.get_char(i) != b.get_char(i) {
            return false;
        }
        i += 1;
    }
    proof {
        assert(a@ =~= b@);
    }
    true
}

/// A command parsed from one line of input, consumed by the session loop.
#[derive(Debug, Clone, PartialEq, Eq)]
pub enum Command {
    /// Display the wallet's current balance.
    Balance,
    /// Display the recognized commands.
    Help,
    /// Display the wallet's public key.
    Pubkey,
    /// Pay `value` to the recipient whose public key serializes to `to`.
    Pay { value: u64, to: Vec<u8> },
}

/// Why a line failed to parse.
#[derive(Debug, Clone, PartialEq, Eq)]
pub enum CommandError {
    /// The line was empty or all whitespace.
    NoCommand,
    /// The first word is not a recognized keyword.
    UnknownCommand,
    /// An argument was present but failed its own parse.
    InvalidArgument { message: String },
    /// The keyword was given the wrong number of arguments.
    ArgumentCount { expected: usize },
}

/// The mathematical shape of a [`Command`].
pub ghost enum CommandView {
    Balance,
    Help,
    Pubkey,
    Pay { value: u64, to: Seq<u8> },
}

/// The mathematical shape of a [`CommandError`].
pub ghost enum CommandErrorView {
    NoCommand,
    UnknownCommand,
    InvalidArgument { message: Seq<char> },
    ArgumentCount { expected: usize },
}

impl View for Command {
    type V = CommandView;

    open spec fn view(&self) -> CommandView {
        match self {
            Command::Balance => CommandView::Balance,
            Command::Help => CommandView::Help,
            Command::Pubkey => CommandView::Pubkey,
            Command::Pay { value, to } => CommandView::Pay { value: *value, to: to@ },
        }
    }
}

impl View for CommandError {
    type V = CommandErrorView;

    open spec fn view(&self) -> CommandErrorView {
        match self {
            CommandError::NoCommand => CommandErrorView::NoCommand,
            CommandError::UnknownCommand => CommandErrorView::UnknownCommand,
            CommandError::InvalidArgument { message } => CommandErrorView::InvalidArgument {
                message: message@,
            },
            CommandError::ArgumentCount { expected } => CommandErrorView::ArgumentCount {
                expected: *expected,
            },
        }
    }
}

/// What the wallet library's textual public-key parse yields on `s`: the
/// compressed serialization of the key, or the textual parse error. The
/// result depends on the characters alone.
pub uninterp spec fn recipient_parse(s: Seq<char>) -> Result<Seq<u8>, Seq<char>>;

/// Relies on `secp256k1::PublicKey`'s `FromStr` to parse a textual public
/// key (hex, validated as a curve point) and on `PublicKey::serialize` for
/// its compressed byte form; the error text is the parse error's display.
#[verifier::external_body]
fn parse_recipient(s: &str) -> (r: Result<Vec<u8>, String>)
    ensures
        r is Ok <==> recipient_parse(s@) is Ok,
        r matches Ok(b) ==> b@ == recipient_parse(s@)->Ok_0,
        r matches Err(e) ==> e@ == recipient_parse(s@)->Err_0,
{
    match s.parse::<secp256k1::PublicKey>() {
        Ok(k) => Ok(k.serialize().to_vec()),
        Err(e) => Err(format!("{}", e)),
    }
}

/// What one line of input parses to: `spec_parse` splits the line into
/// words, selects the command by its keyword, checks arity, and checks the
/// payment arguments in order (amount first, recipient second, arity last).
pub open spec fn spec_parse(s: Seq<char>) -> Result<CommandView, CommandErrorView> {
    let t = spec_tokens(s);
    if t.len() == 0 {
        Err(CommandErrorView::NoCommand)
    } else if t[0] == "balance"@ {
        if t.len() == 1 {
            Ok(CommandView::Balance)
        } else {
            Err(CommandErrorView::ArgumentCount { expected: 0 })
        }
    } else if t[0] == "help"@ {
        if t.len() == 1 {
            Ok(CommandView::Help)
        } else {
            Err(CommandErrorView::ArgumentCount { expected: 0 })
        }
    } else if t[0] == "pubkey"@ {
        if t.len() == 1 {
            Ok(CommandView::Pubkey)
        } else {
            Err(CommandErrorView::ArgumentCount { expected: 0 })
        }
    } else if t[0] == "pay"@ {
        if t.len() < 3 {
            Err(CommandErrorView::ArgumentCount { expected: 2 })
        } else if !is_u64_numeral(t[1]) {
            Err(CommandErrorView::InvalidArgument { message: "invalid value: "@ + t[1] })
        } else {
            match recipient_parse(t[2]) {
                Err(e) => Err(
                    CommandErrorView::InvalidArgument { message: "invalid public key: "@ + e },
                ),
                Ok(pk) => {
                    if t.len() > 3 {
                        Err(CommandErrorView::ArgumentCount { expected: 2 })
                    } else {
                        Ok(
                            CommandView::Pay {
                                value: dec_value(unsigned_digits(t[1])) as u64,
                                to: pk,
                            },
                        )
                    }
                },
            }
        }
    } else {
        Err(CommandErrorView::UnknownCommand)
    }
}

/// Checks that no token beyond the first `used` remains; a leftover token is
/// an arity error expecting `expected` arguments.
pub fn assert_no_more(tokens: &Vec<&str>, used: usize, expected: usize) -> (r: Result<
    (),
    CommandError,
>)
    ensures
        r is Ok <==> tokens@.len() <= used,
        r matches Err(e) ==> e@ == (CommandErrorView::ArgumentCount { expected }),
{
    if tokens.len() > used {
        Err(CommandError::ArgumentCount { expected })
    } else {
        Ok(())
    }
}

impl Command {
    /// Parses one line of input into exactly one command or exactly one
    /// error, as `spec_parse` describes. The same line always yields the
    /// same result: the grammar is a pure function of the line.
    pub fn from_str(s: &str) -> (r: Result<Command, CommandError>)
        ensures
            r is Ok <==> spec_parse(s@) is Ok,
            r matches Ok(c) ==> c@ == spec_parse(s@)->Ok_0,
            r matches Err(e) ==> e@ == spec_parse(s@)->Err_0,
    {
        let toks = tokenize(s);
        if toks.len() == 0 {
            return Err(CommandError::NoCommand);
        }
        let head: &str = toks[0];
        if str_eq(head, "balance") {
            match assert_no_more(&toks, 1, 0) {
                Err(e) => Err(e),
                Ok(()) => Ok(Command::Balance),
            }
        } else if str_eq(head, "help") {
            match assert_no_more(&toks, 1, 0) {
                Err(e) => Err(e),
                Ok(()) => Ok(Command::Help),
            }
        } else if str_eq(head, "pubkey") {
            match assert_no_more(&toks, 1, 0) {
                Err(e) => Err(e),
                Ok(()) => Ok(Command::Pubkey),
            }
        } else if str_eq(head, "pay") {
            if toks.len() < 3 {
                return Err(CommandError::ArgumentCount { expected: 2 });
            }
            let amount: &str = toks[1];
            let value = match parse_u64(amount) {
                Some(v) => v,
                None => {
                    let mut msg = "invalid value: ".to_owned();
                    msg.append(amount);
                    return Err(CommandError::InvalidArgument { message: msg });
                },
            };
            let recipient: &str = toks[2];
            let to = match parse_recipient(recipient) {
                Ok(b) => b,
                Err(e) => {
                    let mut msg = "invalid public key: ".to_owned();
                    msg.append(e.as_str());
                    return Err(CommandError::InvalidArgument { message: msg });
                },
            };
            match assert_no_more(&toks, 3, 2) {
                Err(e) => Err(e),
                Ok(()) => Ok(Command::Pay { value, to }),
            }
        } else {
            Err(CommandError::UnknownCommand)
        }
    }
}

/// A zero-argument command keyword followed by at least one further token
/// parses to an arity error expecting zero arguments.
pub proof fn lemma_zero_arg_trailing_tokens(s: Seq<char>)
    requires
        spec_tokens(s).len() >= 2,
        spec_tokens(s)[0] == "balance"@ || spec_tokens(s)[0] == "help"@ || spec_tokens(s)[0]
            == "pubkey"@,
    ensures
        spec_parse(s) == Err::<CommandView, CommandErrorView>(
            CommandErrorView::ArgumentCount { expected: 0 },
        ),
{
}

proof fn lemma_all_ws_no_tokens(s: Seq<char>, i: int)
    requires
        0 <= i <= s.len(),
        forall|k: int| 0 <= k < s.len() ==> is_ascii_ws(#[trigger] s[k]),
    ensures
        tokens_from(s, i) == Seq::<Seq<char>>::empty(),
    decreases s.len() - i,
{
    if i < s.len() {
        lemma_all_ws_no_tokens(s, i + 1);
    }
}

/// A line that is empty or consists only of ASCII whitespace has no tokens
/// and parses to `NoCommand`.
pub proof fn lemma_blank_line_no_command(s: Seq<char>)
    requires
        forall|k: int| 0 <= k < s.len() ==> is_ascii_ws(#[trigger] s[k]),
    ensures
        spec_parse(s) == Err::<CommandView, CommandErrorView>(CommandErrorView::NoCommand),
{
    lemma_all_ws_no_tokens(s, 0);
}

/// The grammar is pure: any two results of parsing the same line agree on
/// their variant and on everything the variant carries.
pub proof fn lemma_parse_idempotent(
    s: &str,
    r1: Result<Command, CommandError>,
    r2: Result<Command, CommandError>,
)
    requires
        call_ensures(Command::from_str, (s,), r1),
        call_ensures(Command::from_str, (s,), r2),
    ensures
        r1 is Ok <==> r2 is Ok,
        r1 matches Ok(c1) ==> (r2 matches Ok(c2) && c1@ == c2@),
        r1 matches Err(e1) ==> (r2 matches Err(e2) && e1@ == e2@),
{
}

/// A first token outside the four recognized keywords parses to
/// `UnknownCommand`, whatever follows it.
pub proof fn lemma_unknown_keyword(s: Seq<char>)
    requires
        spec_tokens(s).len() >= 1,
        spec_tokens(s)[0] != "balance"@,
        spec_tokens(s)[0] != "help"@,
        spec_tokens(s)[0] != "pubkey"@,
        spec_tokens(s)[0] != "pay"@,
    ensures
        spec_parse(s) == Err::<CommandView, CommandErrorView>(CommandErrorView::UnknownCommand),
{
}

} // verus!
