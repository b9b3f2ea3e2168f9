use vstd::prelude::*;

verus! {

/// What one invocation asks for, decided from the first argument alone.
#[derive(Clone, Copy, Debug, PartialEq, Eq, Structural)]
pub enum CliAction {
    /// No argument: load the configuration and print the report.
    Report,
    /// `-h`: print the usage text and exit successfully.
    Help,
    /// `-e`: open the configuration file in the user's editor.
    Edit,
    /// Anything else: reject it and point at the help flag.
    Invalid,
}

/// The bytes of the help flag, `-h`.
pub open spec fn help_flag() -> Seq<u8> {
    seq![45u8, 104u8]
}

/// The bytes of the edit flag, `-e`.
pub open spec fn edit_flag() -> Seq<u8> {
    seq![45u8, 101u8]
}

/// The action an invocation's first argument selects.
pub open spec fn spec_dispatch(arg: Option<Seq<u8>>) -> CliAction {
    match arg {
        Option::None => CliAction::Report,
        Option::Some(a) => if a == help_flag() {
            CliAction::Help
        } else if a == edit_flag() {
            CliAction::Edit
        } else {
            CliAction::Invalid
        },
    }
}

/// Decides what one invocation asks for: no argument runs the report,
/// `-h` asks for help, `-e` asks to edit, and anything else is invalid.
pub fn dispatch(arg: Option<&Vec<u8>>) -> (r: CliAction)
    ensures
        r == spec_dispatch(
            match arg {
                Option::Some(a) => Some(a@),
                Option::None => None,
            },
        ),
{
    match arg {
        Option::None => CliAction::Report,
        Option::Some(a) => {
            if a.len() == 2 && a[0] == 45 && a[1] == 104 {
                proof {
                    assert(a@ =~= help_flag());
                }
                CliAction::Help
            } else if a.len() == 2 && a[0] == 45 && a[1] == 101 {
                proof {
                    assert(a@ =~= edit_flag());
                }
                CliAction::Edit
            } else {
                CliAction::Invalid
            }
        },
    }
}

/// The decimal digits of `n`, most significant first, with no sign and
/// no leading zero (a single `0` for zero itself).
pub open spec fn dec_rep(n: nat) -> Seq<u8>
    decreases n,
{
    if n < 10 {
        seq![(48 + n) as u8]
    } else {
        dec_rep(n / 10) + seq![(48 + n % 10) as u8]
    }
}

/// Appends the decimal digits of `n` to `out`.
fn push_decimal(n: u32, out: &mut Vec<u8>)
    ensures
        final(out)@ == old(out)@ + dec_rep(n as nat),
    decreases n,
{
    if n < 10 {
        out.push(48 + n as u8);
        assert(out@ =~= old(out)@ + dec_rep(n as nat));
    } else {
        push_decimal(n / 10, out);
        out.push(48 + (n % 10) as u8);
        assert(out@ =~= old(out)@ + dec_rep(n as nat));
    }
}

/// The suffix of every per-year configuration file name, `.toml`.
pub open spec fn toml_suffix() -> Seq<u8> {
    seq![46u8, 116u8, 111u8, 109u8, 108u8]
}

/// The file name of a year's configuration, the year's decimal digits
/// followed by `.toml`.
pub fn year_file_name(year: u32) -> (r: Vec<u8>)
    ensures
        r@ == dec_rep(year as nat) + toml_suffix(),
{
    let mut out: Vec<u8> = Vec::new();
    push_decimal(year, &mut out);
    out.push(46);
    out.push(116);
    out.push(111);
    out.push(109);
    out.push(108);
    proof {
        assert(out@ =~= dec_rep(year as nat) + toml_suffix());
    }
    out
}

} // verus!
