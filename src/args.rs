//! Turns the command line into the seed to search for and the file name to
//! save under.
use vstd::prelude::*;
use rand::seq::SliceRandom;

use crate::text::{contains, has_substring};
use crate::Failure;

verus! {

/// The file name used when the command line gives none.
pub open spec fn default_filename() -> Seq<char> {
    "example.png"@
}

/// The keywords one of which is searched for when the command line gives none.
pub open spec fn default_seeds() -> Seq<Seq<char>> {
    seq!["Poker"@, "Nature"@, "Science"@, "Animals"@]
}

/// The command line as character sequences, program name first.
pub open spec fn arg_views(args: Seq<String>) -> Seq<Seq<char>> {
    args.map_values(|s: String| s@)
}

/// The first argument after the program name asks for the usage text: it
/// holds "-h" anywhere, or holds "-help" and is the only argument.
///
/// This rule is kept as the tool has always applied it, though it is
/// ambiguous: matching by substring treats any argument holding "-h" (a
/// seed such as "cat-house" among them) as a help request whatever follows
/// it, and the "-help" case adds nothing, since "-help" holds "-h"
/// (`help_request_is_dash_h`).
pub open spec fn is_help_request(args: Seq<Seq<char>>) -> bool {
    args.len() >= 2 && (has_substring(args[1], "-h"@) || (has_substring(args[1], "-help"@)
        && args.len() == 2))
}

/// The destination named by the second argument, or the default file name
/// when it is missing or empty.
pub open spec fn resolved_filename(args: Seq<Seq<char>>) -> Seq<char> {
    if args.len() >= 3 && args[2].len() > 0 {
        args[2]
    } else {
        default_filename()
    }
}

/// A help request is exactly a first argument that holds "-h": the
/// "-help" case of the rule is already covered by it.
pub proof fn help_request_is_dash_h(args: Seq<Seq<char>>)
    ensures
        is_help_request(args) <==> (args.len() >= 2 && has_substring(args[1], "-h"@)),
{
    if args.len() >= 2 && has_substring(args[1], "-help"@) {
        let s = args[1];
        let i = choose|i: int|
            0 <= i && i + "-help"@.len() <= s.len() && #[trigger] s.subrange(i, i + "-help"@.len())
                == "-help"@;
        reveal_strlit("-help");
        reveal_strlit("-h");
        assert(s.subrange(i, i + "-h"@.len()) =~= "-h"@) by {
            assert(s.subrange(i, i + 5)[0] == '-');
            assert(s.subrange(i, i + 5)[1] == 'h');
        }
    }
}

/// What one run searches for and where it saves the result.
pub struct Arguments {
    pub seed: String,
    pub filename: String,
}

/// Relies on rand's `SliceRandom::choose` with the thread-local generator:
/// `None` for an empty slice, else a reference to one of its elements.
#[verifier::external_body]
fn choose_one(items: &Vec<String>) -> (r: Option<&String>)
    ensures
        items@.len() == 0 <==> r is None,
        r matches Some(x) ==> items@.contains(*x),
{
    items.choose(&mut rand::thread_rng())
}

impl Arguments {
    /// Resolves the command line `args` (program name first), taking
    /// `fallback_seed` as the seed when no argument follows the program name.
    pub fn resolve(args: &Vec<String>, fallback_seed: &str) -> (r: Result<Arguments, Failure>)
        ensures
            args@.len() < 2 ==> (r matches Ok(a) && a.seed@ == fallback_seed@ && a.filename@
                == default_filename()),
            args@.len() >= 2 ==> (r is Err <==> is_help_request(arg_views(args@))),
            r matches Err(e) ==> e == Failure::HelpRequested,
            args@.len() >= 2 ==> (r matches Ok(a) ==> a.seed@ == args@[1]@ && a.filename@
                == resolved_filename(arg_views(args@))),
    {
        if args.len() < 2 {
            return Ok(Arguments { seed: fallback_seed.to_owned(), filename: "example.png".to_owned() });
        }
        let first: &str = args[1].as_str();
        if contains(first, "-h") || (contains(first, "-help") && args.len() == 2) {
            return Err(Failure::HelpRequested);
        }
        let filename = if args.len() >= 3 && !args[2].as_str().is_empty() {
            args[2].clone()
        } else {
            "example.png".to_owned()
        };
        Ok(Arguments { seed: args[1].clone(), filename })
    }

    /// Resolves the command line `args` (program name first). With no
    /// argument after the program name the seed is drawn at random from the
    /// default keywords.
    pub fn new(args: &Vec<String>) -> (r: Result<Arguments, Failure>)
        ensures
            args@.len() < 2 ==> (r matches Ok(a) && default_seeds().contains(a.seed@)
                && a.filename@ == default_filename()),
            args@.len() >= 2 ==> (r is Err <==> is_help_request(arg_views(args@))),
            r matches Err(e) ==> e == Failure::HelpRequested,
            args@.len() >= 2 ==> (r matches Ok(a) ==> a.seed@ == args@[1]@ && a.filename@
                == resolved_filename(arg_views(args@))),
    {
        if args.len() >= 2 {
            return Arguments::resolve(args, "");
        }
        let seeds = vec![
            "Poker".to_owned(),
            "Nature".to_owned(),
            "Science".to_owned(),
            "Animals".to_owned(),
        ];
        assert(seeds@.map_values(|s: String| s@) =~= default_seeds());
        match choose_one(&seeds) {
            Some(seed) => {
                proof {
                    let i = choose|i: int| 0 <= i < seeds@.len() && seeds@[i] == *seed;
                    assert(default_seeds()[i] == seed@);
                }
                Arguments::resolve(args, seed.as_str())
            },
            None => Arguments::resolve(args, "Poker"),
        }
    }
}

} // verus!
