//! The external-command adapter: an arbitrary program that is told
//! the forwarded port by substituting a placeholder in its arguments.
//!
//! The engine validates the command line once and builds each
//! invocation's arguments; running the process is the embedder's.

use vstd::prelude::*;
use vstd::string::StringSliceAdditionalSpecFns;
use vstd::utf8::encode_utf8;
use crate::errors::ErrorKind;
use crate::errors::PortError;
use crate::text::ascii_seq;
use crate::text::contains_bytes;
use crate::text::contains_seq;
use crate::text::decimal_of;
use crate::text::replace_chars;
use crate::text::replace_str;
use crate::text::str_to_bytes;
use crate::text::u64_to_string;

verus! {

/// The POSIX-shell word split of a command line, or nothing for an
/// ill-quoted line. Named here because the shell quoting rules are too
/// large to state; the split depends on the string alone.
pub uninterp spec fn split_words_of(s: Seq<char>) -> Option<Seq<Seq<char>>>;

/// Relies on `shell_words::split`: POSIX-shell word splitting of the
/// command line, failing on mismatched quotes.
#[verifier::external_body]
fn split_command_line(s: &str) -> (r: Option<Vec<String>>)
    ensures
        match r {
            Some(words) => split_words_of(s@) == Some(words.deep_view()),
            None => split_words_of(s@) is None,
        },
{
    match shell_words::split(s) {
        Ok(words) => Some(words),
        Err(_) => None,
    }
}

/// The port placeholder that must stand in some argument.
pub open spec fn placeholder() -> Seq<char> {
    "{}"@
}

/// Some argument carries the port placeholder.
pub open spec fn args_have_placeholder(args: Seq<Seq<char>>) -> bool {
    exists|i: int|
        0 <= i < args.len() && contains_seq(
            encode_utf8(#[trigger] args[i]),
            encode_utf8(placeholder()),
        )
}

/// A validated external command: the program and its argument
/// templates, at least one of which carries the port placeholder.
#[derive(Clone, Debug)]
pub struct ExecClient {
    command: String,
    args: Vec<String>,
}

impl ExecClient {
    /// The program to run.
    pub closed spec fn spec_command(&self) -> Seq<char> {
        self.command@
    }

    /// The argument templates.
    pub closed spec fn spec_args(&self) -> Seq<Seq<char>> {
        self.args.deep_view()
    }

    /// Validate a command line: it must split into a program and
    /// arguments, and some argument must carry the port placeholder.
    pub fn new(command: &str) -> (r: Result<ExecClient, PortError>)
        ensures
            match r {
                Ok(c) => {
                    &&& split_words_of(command@) is Some
                    &&& split_words_of(command@).unwrap().len() > 0
                    &&& c.spec_command() == split_words_of(command@).unwrap()[0]
                    &&& c.spec_args() == split_words_of(command@).unwrap().skip(1)
                    &&& args_have_placeholder(c.spec_args())
                },
                Err(e) => e.kind == ErrorKind::Parse && (split_words_of(command@) is None
                    || split_words_of(command@).unwrap().len() == 0 || !args_have_placeholder(
                    split_words_of(command@).unwrap().skip(1),
                )),
            },
    {
        let mut words = match split_command_line(command) {
            Some(w) => w,
            None => {
                return Err(PortError::new(ErrorKind::Parse, "Invalid exec command"));
            },
        };
        if words.len() == 0 {
            return Err(PortError::new(ErrorKind::Parse, "Invalid exec command"));
        }
        let ghost all = words.deep_view();
        let program = words.remove(0);
        let ghost rest = words.deep_view();
        proof {
            assert(rest =~= all.skip(1));
            assert(program@ == all[0]);
        }
        let needle = str_to_bytes("{}");
        let mut found = false;
        let mut i: usize = 0;
        while i < words.len()
            invariant
                0 <= i <= words@.len(),
                rest == words.deep_view(),
                rest.len() == words@.len(),
                found == exists|k: int|
                    0 <= k < i && contains_seq(
                        encode_utf8(#[trigger] rest[k]),
                        "{}".spec_bytes(),
                    ),
                needle@ == "{}".spec_bytes(),
            decreases words@.len() - i,
        {
            let arg_bytes = str_to_bytes(words[i].as_str());
            proof {
                assert(rest[i as int] == words@[i as int]@);
            }
            if contains_bytes(&arg_bytes, &needle) {
                found = true;
                proof {
                    assert(contains_seq(encode_utf8(rest[i as int]), "{}".spec_bytes()));
                }
            }
            i += 1;
        }
        if !found {
            proof {
                assert(encode_utf8(placeholder()) == "{}".spec_bytes());
            }
            return Err(
                PortError::new(
                    ErrorKind::Parse,
                    "Exec command arguments must contain the placeholder {} for the port",
                ),
            );
        }
        proof {
            assert(encode_utf8(placeholder()) == "{}".spec_bytes());
        }
        Ok(ExecClient { command: program, args: words })
    }

    /// The program to run.
    pub fn command(&self) -> (r: &String)
        ensures
            r@ == self.spec_command(),
    {
        &self.command
    }

    /// The arguments for one invocation: each template with every
    /// placeholder replaced by the port in decimal.
    pub fn build_invocation(&self, port: u64) -> (r: Vec<String>)
        ensures
            r@.len() == self.spec_args().len(),
            forall|i: int| 0 <= i < r@.len() ==> (#[trigger] r@[i])@ == replace_chars(
                self.spec_args()[i],
                placeholder(),
                ascii_seq(decimal_of(port as nat)),
            ),
    {
        let port_text = u64_to_string(port);
        let mut out: Vec<String> = Vec::new();
        let mut i: usize = 0;
        proof {
            reveal_strlit("{}");
        }
        while i < self.args.len()
            invariant
                0 <= i <= self.args@.len(),
                self.spec_args().len() == self.args@.len(),
                port_text@ == ascii_seq(decimal_of(port as nat)),
                placeholder().len() == 2,
                out@.len() == i,
                forall|k: int| 0 <= k < i ==> (#[trigger] out@[k])@ == replace_chars(
                    self.spec_args()[k],
                    placeholder(),
                    ascii_seq(decimal_of(port as nat)),
                ),
            decreases self.args@.len() - i,
        {
            proof {
                assert(self.spec_args()[i as int] == self.args@[i as int]@);
            }
            let replaced = replace_str(self.args[i].as_str(), "{}", port_text.as_str());
            out.push(replaced);
            i += 1;
        }
        out
    }
}

/// What an exited command means: exit code zero is success; any other
/// code, a signal, or no status at all is a downstream failure.
pub fn interpret_exit_status(code: Option<i32>) -> (r: Result<(), PortError>)
    ensures
        match r {
            Ok(()) => code == Some(0i32),
            Err(e) => code != Some(0i32) && e.kind == ErrorKind::Downstream,
        },
{
    match code {
        Some(c) => {
            if c == 0 {
                Ok(())
            } else {
                Err(PortError::new(ErrorKind::Downstream, "Command exited with a nonzero code"))
            }
        },
        None => Err(PortError::new(ErrorKind::Downstream, "Command exited with unknown status")),
    }
}

} // verus!
