//! The game-server command line, assembled as data.
//!
//! The surrounding process spawns the server through `stdbuf` for
//! line-buffered output; everything after the program name is computed here:
//! the fixed launcher invocation with the user directory, and the one-time
//! credential flags.

use vstd::prelude::*;

use crate::plugins::strings_view;

verus! {

/// The credential flags: `-User=<email>` and `-Password=<password>`, each
/// only when given.
pub open spec fn spec_credential_args(
    email: Option<Seq<char>>,
    password: Option<Seq<char>>,
) -> Seq<Seq<char>> {
    (match email {
        Some(e) => seq!["-User="@ + e],
        None => Seq::<Seq<char>>::empty(),
    }) + (match password {
        Some(p) => seq!["-Password="@ + p],
        None => Seq::<Seq<char>>::empty(),
    })
}

/// The arguments handed to `stdbuf`: line buffering, then the launcher
/// executable with the server flags and the user directory.
pub fn launcher_args(user_dir: &str) -> (r: Vec<String>)
    ensures
        r@.len() == 8,
        r@[0]@ == "--output=L"@,
        r@[1]@ == "--"@,
        r@[2]@ == "./data/brickadia-launcher/main-brickadia-launcher"@,
        r@[3]@ == "--server"@,
        r@[4]@ == "--"@,
        r@[5]@ == "-NotInstalled"@,
        r@[6]@ == "-log"@,
        r@[7]@ == "-UserDir="@ + user_dir@,
{
    let mut args: Vec<String> = Vec::new();
    args.push(String::from_str("--output=L"));
    args.push(String::from_str("--"));
    args.push(String::from_str("./data/brickadia-launcher/main-brickadia-launcher"));
    args.push(String::from_str("--server"));
    args.push(String::from_str("--"));
    args.push(String::from_str("-NotInstalled"));
    args.push(String::from_str("-log"));
    args.push(String::from_str("-UserDir=").concat(user_dir));
    args
}

/// The credential flags for the one-time account entry.
pub fn credential_args(email: &Option<String>, password: &Option<String>) -> (r: Vec<String>)
    ensures
        strings_view(r@) == spec_credential_args(
            match email {
                Some(e) => Some(e@),
                None => None::<Seq<char>>,
            },
            match password {
                Some(p) => Some(p@),
                None => None::<Seq<char>>,
            },
        ),
{
    let mut args: Vec<String> = Vec::new();
    match email {
        Some(e) => {
            args.push(String::from_str("-User=").concat(e.as_str()));
        },
        None => (),
    }
    match password {
        Some(p) => {
            args.push(String::from_str("-Password=").concat(p.as_str()));
        },
        None => (),
    }
    proof {
        assert(strings_view(args@) =~= spec_credential_args(
            match email {
                Some(e) => Some(e@),
                None => None::<Seq<char>>,
            },
            match password {
                Some(p) => Some(p@),
                None => None::<Seq<char>>,
            },
        ));
    }
    args
}

} // verus!
