//! Command-line options: the flags the front end accepts and their exact
//! decoding. Reading the process arguments and acting on the options is
//! the caller's concern.

use vstd::prelude::*;

verus! {

use crate::api::str_eq;

/// The decoded command line: a scenario file or a preset name (never
/// both), an optional telemetry output path, an optional API bind
/// address, and the mode switches.
pub struct CliOptions {
    /// Path of a scenario file to load.
    pub scenario: Option<String>,
    /// Name of a built-in preset to run.
    pub preset: Option<String>,
    /// Path to write the telemetry CSV to.
    pub telemetry_out: Option<String>,
    /// Address to serve the API on.
    pub api_bind: Option<String>,
    /// Serve through the alternative HTTP stack.
    pub use_axum: bool,
    /// Run the live terminal view.
    pub tui: bool,
    /// Usage text was requested.
    pub help: bool,
}

/// The options with nothing set.
pub open spec fn cli_defaults() -> CliOptions {
    CliOptions {
        scenario: None,
        preset: None,
        telemetry_out: None,
        api_bind: None,
        use_axum: false,
        tui: false,
        help: false,
    }
}

/// The arguments folded left to right onto the accumulated options:
/// value flags consume the following argument and may be given once,
/// switches simply turn on, anything else fails.
pub open spec fn cli_fold(args: Seq<String>, opts: CliOptions) -> Option<CliOptions>
    decreases args.len(),
{
    if args.len() == 0 {
        Some(opts)
    } else if args[0]@ == "--scenario"@ {
        if args.len() < 2 || opts.scenario is Some {
            None
        } else {
            cli_fold(args.skip(2), CliOptions { scenario: Some(args[1]), ..opts })
        }
    } else if args[0]@ == "--preset"@ {
        if args.len() < 2 || opts.preset is Some {
            None
        } else {
            cli_fold(args.skip(2), CliOptions { preset: Some(args[1]), ..opts })
        }
    } else if args[0]@ == "--telemetry-out"@ {
        if args.len() < 2 || opts.telemetry_out is Some {
            None
        } else {
            cli_fold(args.skip(2), CliOptions { telemetry_out: Some(args[1]), ..opts })
        }
    } else if args[0]@ == "--api-bind"@ {
        if args.len() < 2 || opts.api_bind is Some {
            None
        } else {
            cli_fold(args.skip(2), CliOptions { api_bind: Some(args[1]), ..opts })
        }
    } else if args[0]@ == "--axum"@ {
        cli_fold(args.skip(1), CliOptions { use_axum: true, ..opts })
    } else if args[0]@ == "--tui"@ {
        cli_fold(args.skip(1), CliOptions { tui: true, ..opts })
    } else if args[0]@ == "--help"@ || args[0]@ == "-h"@ {
        cli_fold(args.skip(1), CliOptions { help: true, ..opts })
    } else {
        None
    }
}

/// The whole command line: the folded flags, rejected when a scenario
/// file and a preset are both given.
pub open spec fn parse_options_spec(args: Seq<String>) -> Option<CliOptions> {
    match cli_fold(args, cli_defaults()) {
        Some(opts) => if opts.scenario is Some && opts.preset is Some {
            None
        } else {
            Some(opts)
        },
        None => None,
    }
}

/// Decodes the command-line arguments: exactly [`parse_options_spec`]. An
/// unknown flag, a value flag without its value or given twice, or a
/// scenario together with a preset is an error.
pub fn parse_options(args: &Vec<String>) -> (r: Result<CliOptions, String>)
    ensures
        match r {
            Ok(opts) => parse_options_spec(args@) == Some(opts),
            Err(_) => parse_options_spec(args@) is None,
        },
{
    proof {
        assert(args@.skip(0) =~= args@);
    }
    let folded = fold_args(args, 0, CliOptions {
        scenario: None,
        preset: None,
        telemetry_out: None,
        api_bind: None,
        use_axum: false,
        tui: false,
        help: false,
    });
    match folded {
        Ok(opts) => {
            if opts.scenario.is_some() && opts.preset.is_some() {
                Err(
                    "arguments `--scenario` and `--preset` are mutually exclusive; choose one source".to_owned(),
                )
            } else {
                Ok(opts)
            }
        },
        Err(e) => Err(e),
    }
}

/// Folds the arguments from position `i` onward: exactly [`cli_fold`] of
/// the remaining arguments.
fn fold_args(args: &Vec<String>, i: usize, opts: CliOptions) -> (r: Result<CliOptions, String>)
    requires
        i <= args@.len(),
    ensures
        match r {
            Ok(o) => cli_fold(args@.skip(i as int), opts) == Some(o),
            Err(_) => cli_fold(args@.skip(i as int), opts) is None,
        },
    decreases args@.len() - i,
{
    proof {
        if i < args@.len() {
            assert(args@.skip(i as int)[0] == args@[i as int]);
            assert(args@.skip(i as int).skip(1) =~= args@.skip(i as int + 1));
            if i + 1 < args@.len() {
                assert(args@.skip(i as int)[1] == args@[i as int + 1]);
                assert(args@.skip(i as int).skip(2) =~= args@.skip(i as int + 2));
            }
        }
    }
    if i >= args.len() {
        return Ok(opts);
    }
    let flag = &args[i];
    if str_eq(flag.as_str(), "--scenario") {
        if i + 1 >= args.len() {
            return Err("missing value for --scenario (expected a TOML file path)".to_owned());
        }
        if opts.scenario.is_some() {
            return Err("--scenario provided more than once".to_owned());
        }
        let value = args[i + 1].clone();
        fold_args(args, i + 2, CliOptions { scenario: Some(value), ..opts })
    } else if str_eq(flag.as_str(), "--preset") {
        if i + 1 >= args.len() {
            return Err("missing value for --preset (expected a preset name)".to_owned());
        }
        if opts.preset.is_some() {
            return Err("--preset provided more than once".to_owned());
        }
        let value = args[i + 1].clone();
        fold_args(args, i + 2, CliOptions { preset: Some(value), ..opts })
    } else if str_eq(flag.as_str(), "--telemetry-out") {
        if i + 1 >= args.len() {
            return Err("missing value for --telemetry-out (expected a file path)".to_owned());
        }
        if opts.telemetry_out.is_some() {
            return Err("--telemetry-out provided more than once".to_owned());
        }
        let value = args[i + 1].clone();
        fold_args(args, i + 2, CliOptions { telemetry_out: Some(value), ..opts })
    } else if str_eq(flag.as_str(), "--api-bind") {
        if i + 1 >= args.len() {
            return Err("missing value for --api-bind (expected host:port)".to_owned());
        }
        if opts.api_bind.is_some() {
            return Err("--api-bind provided more than once".to_owned());
        }
        let value = args[i + 1].clone();
        fold_args(args, i + 2, CliOptions { api_bind: Some(value), ..opts })
    } else if str_eq(flag.as_str(), "--axum") {
        fold_args(args, i + 1, CliOptions { use_axum: true, ..opts })
    } else if str_eq(flag.as_str(), "--tui") {
        fold_args(args, i + 1, CliOptions { tui: true, ..opts })
    } else if str_eq(flag.as_str(), "--help") || str_eq(flag.as_str(), "-h") {
        fold_args(args, i + 1, CliOptions { help: true, ..opts })
    } else {
        let mut message = "unknown argument: ".to_owned();
        message.append(flag.as_str());
        Err(message)
    }
}

} // verus!
