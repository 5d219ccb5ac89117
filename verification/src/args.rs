//! Command-line arguments: the path of the configuration file, settable with
//! `--config-file` or `-c`, with a fixed default path.

use vstd::prelude::*;

verus! {

/// The arguments the program accepts.
#[derive(Debug)]
pub struct Arguments {
    /// Configuration file
    pub config_file: String,
}

/// The configuration file used when none is named on the command line.
pub open spec fn default_config_file() -> Seq<char> {
    "/etc/systemd/xhci_hcd-rebind.toml"@
}

/// Whether an argument is the long or the short form of the config-file flag.
pub open spec fn is_config_flag(a: Seq<char>) -> bool {
    a == "--config-file"@ || a == "-c"@
}

/// The configuration file named by the arguments from position `i` on, when
/// `acc` is the value seen so far: each config-file flag must be followed by
/// its value, a later occurrence wins, and any other argument is rejected.
pub open spec fn parse_rest(args: Seq<Seq<char>>, i: int, acc: Seq<char>) -> Option<Seq<char>>
    decreases args.len() - i,
{
    if i >= args.len() {
        Some(acc)
    } else if is_config_flag(args[i]) && i + 1 < args.len() {
        parse_rest(args, i + 2, args[i + 1])
    } else {
        None
    }
}

/// The configuration file named by a full command line (the leading program
/// name ignored), or None when the command line is rejected.
pub open spec fn parsed_config_file(args: Seq<Seq<char>>) -> Option<Seq<char>> {
    parse_rest(args, 1, default_config_file())
}

impl Arguments {
    /// Parses a command line, program name first: returns the arguments it
    /// names, or None exactly when the command line is rejected.
    pub fn parse_from(args: &Vec<String>) -> (r: Option<Arguments>)
        ensures
            match r {
                Some(a) => parsed_config_file(args.deep_view()) == Some(a.config_file@),
                None => parsed_config_file(args.deep_view()) is None,
            },
    {
        let long_flag = String::from_str("--config-file");
        let short_flag = String::from_str("-c");
        let mut acc = String::from_str("/etc/systemd/xhci_hcd-rebind.toml");
        let n = args.len();
        let mut i: usize = 1;
        while i < n
            invariant
                n == args.len(),
                1 <= i,
                long_flag@ == "--config-file"@,
                short_flag@ == "-c"@,
                parsed_config_file(args.deep_view()) == parse_rest(
                    args.deep_view(),
                    i as int,
                    acc@,
                ),
            decreases n - i,
        {
            proof {
                assert(args.deep_view()[i as int] == args[i as int]@);
            }
            let flagged = args[i] == long_flag || args[i] == short_flag;
            if flagged && i + 1 < n {
                proof {
                    assert(args.deep_view()[i + 1 as int] == args[i + 1 as int]@);
                }
                acc = args[i + 1].clone();
                i = i + 2;
            } else {
                proof {
                    assert(parse_rest(args.deep_view(), i as int, acc@) is None);
                }
                return None;
            }
        }
        Some(Arguments { config_file: acc })
    }
}

} // verus!
