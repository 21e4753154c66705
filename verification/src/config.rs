//! Start-up configuration read from the command line.
//!
//! The arguments are scanned left to right; a dimension flag takes its value
//! from the argument that follows it and a later flag overrides an earlier
//! one.  The boolean flags are set by their mere presence.

use vstd::prelude::*;

use crate::parse::{parse_u32, parse_u32_spec, str_eq};

verus! {

/// Width, height and adapter choices of the example renderer.
#[derive(Clone, Debug)]
pub struct Config {
    pub width: u32,
    pub height: u32,
    pub use_warp: bool,
    pub is_vsync_enabled: bool,
    pub is_fullscreen: bool,
}

/// Whether `s` spells the width flag.
pub open spec fn is_width_flag(s: Seq<char>) -> bool {
    s == "-w"@ || s == "--width"@
}

/// Whether `s` spells the height flag.
pub open spec fn is_height_flag(s: Seq<char>) -> bool {
    s == "-h"@ || s == "--height"@
}

/// Whether `s` spells the software-adapter flag.
pub open spec fn is_warp_flag(s: Seq<char>) -> bool {
    s == "-warp"@ || s == "--warp"@
}

/// Whether `s` spells the vertical-sync flag.
pub open spec fn is_vsync_flag(s: Seq<char>) -> bool {
    s == "-v"@ || s == "--vsync"@
}

/// Whether `s` spells the fullscreen flag.
pub open spec fn is_fullscreen_flag(s: Seq<char>) -> bool {
    s == "-f"@ || s == "--fullscreen"@
}

/// The numeric option after scanning the first `i` arguments: the value
/// read after the last matching flag, or the default when none occurred.
pub open spec fn numeric_option_at(
    args: Seq<Seq<char>>,
    is_flag: spec_fn(Seq<char>) -> bool,
    default_value: u32,
    i: int,
) -> u32
    decreases i,
{
    if i <= 0 {
        default_value
    } else if is_flag(args[i - 1]) {
        parse_u32_spec(args[i]).unwrap()
    } else {
        numeric_option_at(args, is_flag, default_value, i - 1)
    }
}

/// Whether a matching flag occurs among the first `i` arguments.
pub open spec fn flag_present(
    args: Seq<Seq<char>>,
    is_flag: spec_fn(Seq<char>) -> bool,
    i: int,
) -> bool {
    exists|j: int| 0 <= j < i && is_flag(args[j])
}

/// Every dimension flag is followed by a numeral that fits in `u32`.
/// Arguments breaking this make the scan fail on the flag's value.
pub open spec fn args_well_formed(args: Seq<Seq<char>>) -> bool {
    forall|i: int|
        0 <= i < args.len() && (is_width_flag(args[i]) || is_height_flag(args[i])) ==> i + 1
            < args.len() && parse_u32_spec(args[i + 1]) is Some
}

impl Config {
    /// Scan the command line.  Dimensions default to 1280 by 720; the
    /// boolean options default to off.
    pub fn new(args: &[String]) -> (c: Config)
        requires
            args_well_formed(args.deep_view()),
        ensures
            c.width == numeric_option_at(
                args.deep_view(),
                (|s: Seq<char>| is_width_flag(s)),
                1280,
                args.deep_view().len() as int,
            ),
            c.height == numeric_option_at(
                args.deep_view(),
                (|s: Seq<char>| is_height_flag(s)),
                720,
                args.deep_view().len() as int,
            ),
            c.use_warp == flag_present(
                args.deep_view(),
                (|s: Seq<char>| is_warp_flag(s)),
                args.deep_view().len() as int,
            ),
            c.is_vsync_enabled == flag_present(
                args.deep_view(),
                (|s: Seq<char>| is_vsync_flag(s)),
                args.deep_view().len() as int,
            ),
            c.is_fullscreen == flag_present(
                args.deep_view(),
                (|s: Seq<char>| is_fullscreen_flag(s)),
                args.deep_view().len() as int,
            ),
    {
        let ghost v = args.deep_view();
        let mut width: u32 = 1280;
        let mut height: u32 = 720;
        let mut use_warp = false;
        let mut is_vsync_enabled = false;
        let mut is_fullscreen = false;

        let len = args.len();
        let mut i: usize = 0;
        while i < len
            invariant
                i <= len,
                len == args@.len(),
                v == args.deep_view(),
                args_well_formed(v),
                width == numeric_option_at(v, (|s: Seq<char>| is_width_flag(s)), 1280, i as int),
                height == numeric_option_at(v, (|s: Seq<char>| is_height_flag(s)), 720, i as int),
                use_warp == flag_present(v, (|s: Seq<char>| is_warp_flag(s)), i as int),
                is_vsync_enabled == flag_present(v, (|s: Seq<char>| is_vsync_flag(s)), i as int),
                is_fullscreen == flag_present(v, (|s: Seq<char>| is_fullscreen_flag(s)), i as int),
            decreases len - i,
        {
            proof {
                assert(v[i as int] == args@[i as int]@);
                reveal_strlit("-w");
                reveal_strlit("--width");
                reveal_strlit("-h");
                reveal_strlit("--height");
                reveal_strlit("-warp");
                reveal_strlit("--warp");
                reveal_strlit("-v");
                reveal_strlit("--vsync");
                reveal_strlit("-f");
                reveal_strlit("--fullscreen");
            }
            let arg = &args[i];
            if str_eq(arg.as_str(), "-w") || str_eq(arg.as_str(), "--width") {
                proof {
                    assert(is_width_flag(v[i as int]));
                    assert(!is_height_flag(v[i as int]));
                    assert(!is_warp_flag(v[i as int]));
                    assert(!is_vsync_flag(v[i as int]));
                    assert(!is_fullscreen_flag(v[i as int]));
                    assert(i + 1 < v.len() && parse_u32_spec(v[i as int + 1]) is Some);
                    assert(v[i as int + 1] == args@[i as int + 1]@);
                }
                match parse_u32(args[i + 1].as_str()) {
                    Some(value) => width = value,
                    None => assert(false),
                }
            } else if str_eq(arg.as_str(), "-h") || str_eq(arg.as_str(), "--height") {
                proof {
                    assert(is_height_flag(v[i as int]));
                    assert(!is_width_flag(v[i as int]));
                    assert(!is_warp_flag(v[i as int]));
                    assert(!is_vsync_flag(v[i as int]));
                    assert(!is_fullscreen_flag(v[i as int]));
                    assert(i + 1 < v.len() && parse_u32_spec(v[i as int + 1]) is Some);
                    assert(v[i as int + 1] == args@[i as int + 1]@);
                }
                match parse_u32(args[i + 1].as_str()) {
                    Some(value) => height = value,
                    None => assert(false),
                }
            } else if str_eq(arg.as_str(), "-warp") || str_eq(arg.as_str(), "--warp") {
                proof {
                    assert(is_warp_flag(v[i as int]));
                    assert(!is_width_flag(v[i as int]));
                    assert(!is_height_flag(v[i as int]));
                    assert(!is_vsync_flag(v[i as int]));
                    assert(!is_fullscreen_flag(v[i as int]));
                }
                use_warp = true;
            } else if str_eq(arg.as_str(), "-v") || str_eq(arg.as_str(), "--vsync") {
                proof {
                    assert(is_vsync_flag(v[i as int]));
                    assert(!is_width_flag(v[i as int]));
                    assert(!is_height_flag(v[i as int]));
                    assert(!is_warp_flag(v[i as int]));
                    assert(!is_fullscreen_flag(v[i as int]));
                }
                is_vsync_enabled = true;
            } else if str_eq(arg.as_str(), "-f") || str_eq(arg.as_str(), "--fullscreen") {
                proof {
                    assert(is_fullscreen_flag(v[i as int]));
                    assert(!is_width_flag(v[i as int]));
                    assert(!is_height_flag(v[i as int]));
                    assert(!is_warp_flag(v[i as int]));
                    assert(!is_vsync_flag(v[i as int]));
                }
                is_fullscreen = true;
            } else {
                proof {
                    assert(!is_width_flag(v[i as int]));
                    assert(!is_height_flag(v[i as int]));
                    assert(!is_warp_flag(v[i as int]));
                    assert(!is_vsync_flag(v[i as int]));
                    assert(!is_fullscreen_flag(v[i as int]));
                }
            }
            i = i + 1;
        }
        Config { width, height, use_warp, is_vsync_enabled, is_fullscreen }
    }
}

} // verus!
