//! The uCODE command grammar and its parser.
//!
//! A directive is written `[VERB]`, `[VERB|OPTION]` or
//! `[VERB|OPTION*PARAMETER]`, where verb and option are one or more
//! uppercase ASCII letters and the parameter is one or more characters
//! other than `]`. A parameter without an option is not representable.
//!
//! The parser's contract is exact in both directions: it returns a
//! command if and only if the input is the rendering of a well-formed
//! command, and on failure no well-formed command renders to the input.

use vstd::prelude::*;
use crate::text::is_upper;
use crate::text::str_concat;

verus! {

/// A parsed uCODE directive. Produced only by the parser or by
/// explicit construction; consumed by the router.
#[derive(Debug, Clone)]
pub struct Command {
    pub verb: String,
    pub option: Option<String>,
    pub parameter: Option<String>,
}

/// Failure of the parser; carries the raw input unchanged.
#[derive(Debug, Clone)]
pub struct ParseError {
    pub raw: String,
}

/// Mathematical model of a command triple.
pub struct CommandModel {
    pub verb: Seq<char>,
    pub option: Option<Seq<char>>,
    pub parameter: Option<Seq<char>>,
}

impl View for Command {
    type V = CommandModel;

    open spec fn view(&self) -> CommandModel {
        CommandModel {
            verb: self.verb@,
            option: match self.option {
                Some(o) => Some(o@),
                None => None,
            },
            parameter: match self.parameter {
                Some(p) => Some(p@),
                None => None,
            },
        }
    }
}

/// Whether the character at position `i` is an uppercase ASCII letter.
fn upper_at(s: &str, i: usize) -> (r: bool)
    requires
        i < s@.len(),
    ensures
        r == is_upper(s@[i as int]),
{
    let c = s.get_char(i);
    'A' <= c && c <= 'Z'
}

/// One or more uppercase ASCII letters.
pub open spec fn valid_verb(s: Seq<char>) -> bool {
    s.len() > 0 && (forall|i: int| 0 <= i < s.len() ==> is_upper(s[i]))
}

/// One or more characters, none of which is `]`.
pub open spec fn valid_param(s: Seq<char>) -> bool {
    s.len() > 0 && (forall|i: int| 0 <= i < s.len() ==> s[i] != ']')
}

/// Well-formedness of a command triple: the verb and option are
/// uppercase words, and a parameter is only present alongside an option.
pub open spec fn wf_command(m: CommandModel) -> bool {
    &&& valid_verb(m.verb)
    &&& (m.option matches Some(o) ==> valid_verb(o))
    &&& (m.parameter matches Some(p) ==> m.option is Some && valid_param(p))
}

/// The wire form of a command triple.
pub open spec fn render_model(m: CommandModel) -> Seq<char> {
    match (m.option, m.parameter) {
        (None, _) => seq!['['] + m.verb + seq![']'],
        (Some(o), None) => seq!['['] + m.verb + seq!['|'] + o + seq![']'],
        (Some(o), Some(p)) => seq!['['] + m.verb + seq!['|'] + o + seq!['*'] + p + seq![']'],
    }
}

/// Shape of the rendering of a well-formed command: where the brackets,
/// the separators and the three fields sit in the rendered string.
pub proof fn lemma_render_structure(m: CommandModel)
    requires
        wf_command(m),
    ensures
        ({
            let s = render_model(m);
            let vlen = m.verb.len() as int;
            &&& s.len() >= 3
            &&& s[0] == '['
            &&& s[s.len() - 1] == ']'
            &&& vlen >= 1
            &&& 1 + vlen < s.len()
            &&& (forall|k: int| 1 <= k < 1 + vlen ==> is_upper(s[k]))
            &&& m.verb == s.subrange(1, 1 + vlen)
            &&& (m.option is None ==> s.len() == vlen + 2)
            &&& (m.option matches Some(o) ==> {
                let olen = o.len() as int;
                &&& s[1 + vlen] == '|'
                &&& olen >= 1
                &&& 2 + vlen + olen < s.len()
                &&& (forall|k: int| 2 + vlen <= k < 2 + vlen + olen ==> is_upper(s[k]))
                &&& o == s.subrange(2 + vlen, 2 + vlen + olen)
                &&& (m.parameter is None ==> s.len() == vlen + olen + 3)
                &&& (m.parameter matches Some(p) ==> {
                    let plen = p.len() as int;
                    &&& s[2 + vlen + olen] == '*'
                    &&& plen >= 1
                    &&& s.len() == vlen + olen + plen + 4
                    &&& p == s.subrange(3 + vlen + olen, s.len() - 1)
                    &&& (forall|k: int| 3 + vlen + olen <= k < s.len() - 1 ==> s[k] != ']')
                })
            })
        }),
{
    let s = render_model(m);
    let vlen = m.verb.len() as int;
    match (m.option, m.parameter) {
        (None, _) => {
            assert(s.len() == vlen + 2);
            assert(forall|k: int| 1 <= k < 1 + vlen ==> s[k] == m.verb[k - 1]);
            assert(m.verb =~= s.subrange(1, 1 + vlen));
        },
        (Some(o), None) => {
            let olen = o.len() as int;
            assert(s.len() == vlen + olen + 3);
            assert(forall|k: int| 1 <= k < 1 + vlen ==> s[k] == m.verb[k - 1]);
            assert(forall|k: int| 2 + vlen <= k < 2 + vlen + olen ==> s[k] == o[k - 2 - vlen]);
            assert(m.verb =~= s.subrange(1, 1 + vlen));
            assert(o =~= s.subrange(2 + vlen, 2 + vlen + olen));
        },
        (Some(o), Some(p)) => {
            let olen = o.len() as int;
            let plen = p.len() as int;
            assert(s.len() == vlen + olen + plen + 4);
            assert(forall|k: int| 1 <= k < 1 + vlen ==> s[k] == m.verb[k - 1]);
            assert(forall|k: int| 2 + vlen <= k < 2 + vlen + olen ==> s[k] == o[k - 2 - vlen]);
            assert(forall|k: int| 3 + vlen + olen <= k < s.len() - 1 ==> s[k] == p[k - 3 - vlen
                - olen]);
            assert(m.verb =~= s.subrange(1, 1 + vlen));
            assert(o =~= s.subrange(2 + vlen, 2 + vlen + olen));
            assert(p =~= s.subrange(3 + vlen + olen, s.len() - 1));
        },
    }
}

/// In a string with a single maximal run of uppercase letters starting
/// at `a`, two positions that both end the run are the same position.
proof fn lemma_first_nonupper(s: Seq<char>, a: int, i: int, b: int)
    requires
        a <= i < s.len(),
        a <= b < s.len(),
        forall|k: int| a <= k < i ==> is_upper(s[k]),
        !is_upper(s[i]),
        forall|k: int| a <= k < b ==> is_upper(s[k]),
        !is_upper(s[b]),
    ensures
        i == b,
{
    if i < b {
        assert(is_upper(s[i]));
    }
    if b < i {
        assert(is_upper(s[b]));
    }
}

/// Rendering is injective on well-formed commands: two well-formed
/// triples with the same wire form are the same triple. Together with
/// the parser's contract this is the grammar round trip: parsing the
/// rendering of a well-formed command recovers exactly that command.
pub proof fn lemma_render_injective(a: CommandModel, b: CommandModel)
    requires
        wf_command(a),
        wf_command(b),
        render_model(a) == render_model(b),
    ensures
        a == b,
{
    let s = render_model(a);
    lemma_render_structure(a);
    lemma_render_structure(b);
    let va = a.verb.len() as int;
    let vb = b.verb.len() as int;
    assert(!is_upper('|') && !is_upper(']'));
    assert(!is_upper(s[1 + va])) by {
        if a.option is None {
            assert(s[1 + va] == ']');
        } else {
            assert(s[1 + va] == '|');
        }
    }
    assert(!is_upper(s[1 + vb])) by {
        if b.option is None {
            assert(s[1 + vb] == ']');
        } else {
            assert(s[1 + vb] == '|');
        }
    }
    lemma_first_nonupper(s, 1, 1 + va, 1 + vb);
    assert(a.verb == b.verb);
    match (a.option, b.option) {
        (None, None) => {
            assert(a.parameter is None && b.parameter is None);
        },
        (Some(oa), Some(ob)) => {
            let la = oa.len() as int;
            let lb = ob.len() as int;
            assert(!is_upper(s[2 + va + la])) by {
                if a.parameter is None {
                    assert(2 + va + la == s.len() - 1);
                } else {
                    assert(s[2 + va + la] == '*');
                    assert(!is_upper('*'));
                }
            }
            assert(!is_upper(s[2 + vb + lb])) by {
                if b.parameter is None {
                    assert(2 + vb + lb == s.len() - 1);
                } else {
                    assert(s[2 + vb + lb] == '*');
                    assert(!is_upper('*'));
                }
            }
            lemma_first_nonupper(s, 2 + va, 2 + va + la, 2 + vb + lb);
            assert(oa == ob);
            match (a.parameter, b.parameter) {
                (None, None) => {},
                (Some(pa), Some(pb)) => {
                    assert(pa == pb);
                },
                (None, Some(pb)) => {
                    assert(s[2 + va + la] == ']' || 2 + va + la == s.len() - 1);
                    assert(s[2 + vb + lb] == '*');
                    assert(s.len() == va + la + 3);
                    assert(s.len() >= vb + lb + 5);
                },
                (Some(pa), None) => {
                    assert(s[2 + va + la] == '*');
                    assert(s.len() == vb + lb + 3);
                    assert(s.len() >= va + la + 5);
                },
            }
        },
        (None, Some(ob)) => {
            assert(s[1 + va] == ']' && 1 + va == s.len() - 1);
            assert(s[1 + vb] == '|');
        },
        (Some(oa), None) => {
            assert(s[1 + vb] == ']' && 1 + vb == s.len() - 1);
            assert(s[1 + va] == '|');
        },
    }
}

/// Rejection: a string that misses either enclosing bracket, is too
/// short to hold a verb, or does not open with an uppercase letter is
/// the rendering of no well-formed command, so the parser refuses it
/// and yields no partial command. Lowercase verbs fall under the last
/// clause; a parameter without an option is not representable at all.
pub proof fn lemma_reject_malformed(s: Seq<char>)
    requires
        s.len() < 3 || s[0] != '[' || s[s.len() - 1] != ']' || !is_upper(s[1]),
    ensures
        forall|m: CommandModel| wf_command(m) ==> render_model(m) != s,
{
    assert forall|m: CommandModel| wf_command(m) implies render_model(m) != s by {
        if render_model(m) == s {
            lemma_render_structure(m);
            assert(is_upper(s[1]));
        }
    }
}

/// Parses a raw uCODE string.
///
/// Succeeds exactly on the strings that are the rendering of a
/// well-formed command, and then returns that command; on any other
/// input it fails with a `ParseError` carrying the raw input.
pub fn parse_ucode(input: &str) -> (r: Result<Command, ParseError>)
    ensures
        (r matches Ok(c) ==> wf_command(c@) && render_model(c@) == input@),
        (r matches Err(e) ==> e.raw@ == input@ && (forall|m: CommandModel|
            wf_command(m) ==> render_model(m) != input@)),
{
    let n = input.unicode_len();
    if n < 2 {
        proof {
            assert forall|m: CommandModel| wf_command(m) implies render_model(m) != input@ by {
                if render_model(m) == input@ {
                    lemma_render_structure(m);
                }
            }
        }
        return Err(ParseError { raw: input.to_owned() });
    }
    if input.get_char(0) != '[' || input.get_char(n - 1) != ']' {
        proof {
            assert forall|m: CommandModel| wf_command(m) implies render_model(m) != input@ by {
                if render_model(m) == input@ {
                    lemma_render_structure(m);
                }
            }
        }
        return Err(ParseError { raw: input.to_owned() });
    }
    // Scan the verb: the maximal run of uppercase letters after `[`.
    let mut i: usize = 1;
    while i < n && upper_at(input, i)
        invariant
            1 <= i <= n,
            n == input@.len(),
            forall|k: int| 1 <= k < i ==> is_upper(input@[k]),
        decreases n - i,
    {
        i += 1;
    }
    proof {
        if i == n {
            assert(is_upper(input@[n - 1]));
            assert(false);
        }
    }
    if i == 1 {
        // Empty verb.
        proof {
            assert forall|m: CommandModel| wf_command(m) implies render_model(m) != input@ by {
                if render_model(m) == input@ {
                    lemma_render_structure(m);
                    assert(is_upper(input@[1]));
                }
            }
        }
        return Err(ParseError { raw: input.to_owned() });
    }
    let ci = input.get_char(i);
    if ci == ']' {
        if i == n - 1 {
            let verb = input.substring_char(1, i).to_owned();
            let c = Command { verb, option: None, parameter: None };
            proof {
                assert(valid_verb(c@.verb));
                assert(render_model(c@) =~= input@);
            }
            return Ok(c);
        }
        // `]` before the final position: no rendering has an interior `]`.
        proof {
            assert forall|m: CommandModel| wf_command(m) implies render_model(m) != input@ by {
                if render_model(m) == input@ {
                    lemma_render_structure(m);
                    let vlen = m.verb.len() as int;
                    assert(!is_upper(input@[1 + vlen])) by {
                        if m.option is None {
                            assert(input@[1 + vlen] == ']');
                        } else {
                            assert(input@[1 + vlen] == '|');
                        }
                    }
                    lemma_first_nonupper(input@, 1, i as int, 1 + vlen);
                    assert(m.option is None);
                    assert(input@.len() == vlen + 2);
                }
            }
        }
        return Err(ParseError { raw: input.to_owned() });
    }
    if ci != '|' {
        proof {
            assert forall|m: CommandModel| wf_command(m) implies render_model(m) != input@ by {
                if render_model(m) == input@ {
                    lemma_render_structure(m);
                    let vlen = m.verb.len() as int;
                    assert(!is_upper(input@[1 + vlen])) by {
                        if m.option is None {
                            assert(input@[1 + vlen] == ']');
                        } else {
                            assert(input@[1 + vlen] == '|');
                        }
                    }
                    lemma_first_nonupper(input@, 1, i as int, 1 + vlen);
                    if m.option is None {
                        assert(input@.len() == vlen + 2);
                        assert(input@[i as int] == ']');
                    } else {
                        assert(input@[i as int] == '|');
                    }
                }
            }
        }
        return Err(ParseError { raw: input.to_owned() });
    }
    // Scan the option: the maximal run of uppercase letters after `|`.
    let mut j: usize = i + 1;
    while j < n && upper_at(input, j)
        invariant
            i + 1 <= j <= n,
            i + 1 < n,
            n == input@.len(),
            input@[n - 1] == ']',
            forall|k: int| i + 1 <= k < j ==> is_upper(input@[k]),
        decreases n - j,
    {
        j += 1;
    }
    proof {
        if j == n {
            assert(is_upper(input@[n - 1]));
            assert(false);
        }
    }
    // From here on, every rendering matching the input must have an
    // option, with the verb ending at `i` and the option ending at `j`.
    proof {
        assert forall|m: CommandModel|
            wf_command(m) && render_model(m) == input@ implies {
                let vlen = m.verb.len() as int;
                &&& m.option is Some
                &&& 1 + vlen == i as int
                &&& 2 + vlen + m.option->Some_0.len() as int == j as int
            } by {
            lemma_render_structure(m);
            let vlen = m.verb.len() as int;
            assert(!is_upper(input@[1 + vlen])) by {
                if m.option is None {
                    assert(input@[1 + vlen] == ']');
                } else {
                    assert(input@[1 + vlen] == '|');
                }
            }
            lemma_first_nonupper(input@, 1, i as int, 1 + vlen);
            if m.option is None {
                assert(input@[i as int] == ']');
                assert(false);
            }
            let o = m.option->Some_0;
            let olen = o.len() as int;
            assert(!is_upper(input@[2 + vlen + olen])) by {
                if m.parameter is None {
                    assert(2 + vlen + olen == input@.len() - 1);
                    assert(input@[2 + vlen + olen] == ']');
                } else {
                    assert(input@[2 + vlen + olen] == '*');
                }
            }
            lemma_first_nonupper(input@, i as int + 1, j as int, 2 + vlen + olen);
        }
    }
    if j == i + 1 {
        // Empty option.
        proof {
            assert forall|m: CommandModel| wf_command(m) implies render_model(m) != input@ by {
                if render_model(m) == input@ {
                    lemma_render_structure(m);
                }
            }
        }
        return Err(ParseError { raw: input.to_owned() });
    }
    let cj = input.get_char(j);
    if cj == ']' {
        if j == n - 1 {
            let verb = input.substring_char(1, i).to_owned();
            let option = input.substring_char(i + 1, j).to_owned();
            let c = Command { verb, option: Some(option), parameter: None };
            proof {
                assert(render_model(c@) =~= input@);
            }
            return Ok(c);
        }
        proof {
            assert forall|m: CommandModel| wf_command(m) implies render_model(m) != input@ by {
                if render_model(m) == input@ {
                    lemma_render_structure(m);
                    let vlen = m.verb.len() as int;
                    let olen = m.option->Some_0.len() as int;
                    if m.parameter is None {
                        assert(input@.len() == vlen + olen + 3);
                    } else {
                        assert(input@[2 + vlen + olen] == '*');
                    }
                }
            }
        }
        return Err(ParseError { raw: input.to_owned() });
    }
    if cj != '*' {
        proof {
            assert forall|m: CommandModel| wf_command(m) implies render_model(m) != input@ by {
                if render_model(m) == input@ {
                    lemma_render_structure(m);
                    let vlen = m.verb.len() as int;
                    let olen = m.option->Some_0.len() as int;
                    if m.parameter is None {
                        assert(2 + vlen + olen == input@.len() - 1);
                        assert(input@[j as int] == ']');
                    } else {
                        assert(input@[j as int] == '*');
                    }
                }
            }
        }
        return Err(ParseError { raw: input.to_owned() });
    }
    if j + 1 == n - 1 {
        // Empty parameter.
        proof {
            assert forall|m: CommandModel| wf_command(m) implies render_model(m) != input@ by {
                if render_model(m) == input@ {
                    lemma_render_structure(m);
                    let vlen = m.verb.len() as int;
                    let olen = m.option->Some_0.len() as int;
                    if m.parameter is None {
                        assert(2 + vlen + olen == input@.len() - 1);
                        assert(input@[j as int] == ']');
                    } else {
                        let plen = m.parameter->Some_0.len() as int;
                        assert(input@.len() == vlen + olen + plen + 4);
                    }
                }
            }
        }
        return Err(ParseError { raw: input.to_owned() });
    }
    // Scan the parameter for a stray `]`.
    let mut k: usize = j + 1;
    while k < n - 1
        invariant
            j + 1 <= k <= n - 1,
            j + 2 < n,
            n == input@.len(),
            n >= 2,
            input@[n - 1] == ']',
            forall|t: int| j + 1 <= t < k ==> input@[t] != ']',
        decreases n - 1 - k,
    {
        if input.get_char(k) == ']' {
            proof {
                assert forall|m: CommandModel| wf_command(m) implies render_model(m) != input@ by {
                    if render_model(m) == input@ {
                        lemma_render_structure(m);
                        let vlen = m.verb.len() as int;
                        let olen = m.option->Some_0.len() as int;
                        if m.parameter is None {
                            assert(2 + vlen + olen == input@.len() - 1);
                            assert(input@[j as int] == ']');
                        } else {
                            assert(input@[k as int] != ']');
                        }
                    }
                }
            }
            return Err(ParseError { raw: input.to_owned() });
        }
        k += 1;
    }
    let verb = input.substring_char(1, i).to_owned();
    let option = input.substring_char(i + 1, j).to_owned();
    let parameter = input.substring_char(j + 1, n - 1).to_owned();
    let c = Command { verb, option: Some(option), parameter: Some(parameter) };
    proof {
        assert(valid_param(c@.parameter->Some_0));
        assert(render_model(c@) =~= input@);
    }
    Ok(c)
}

/// Renders a command back to its wire form.
pub fn render_command(c: &Command) -> (r: String)
    ensures
        r@ == render_model(c@),
{
    let mut s = str_concat("[", c.verb.as_str());
    match &c.option {
        Some(o) => {
            s.append("|");
            s.append(o.as_str());
            match &c.parameter {
                Some(p) => {
                    s.append("*");
                    s.append(p.as_str());
                },
                None => {},
            }
        },
        None => {},
    }
    s.append("]");
    proof {
        reveal_strlit("[");
        reveal_strlit("|");
        reveal_strlit("*");
        reveal_strlit("]");
        assert(s@ =~= render_model(c@));
    }
    s
}

} // verus!
