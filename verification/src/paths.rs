//! Well-known file locations under the user's home directory, built as
//! plain path strings.
use vstd::prelude::*;

verus! {

/// Relies on dirs' `home_dir`: the user's home directory, if the
/// environment defines one; nothing can be promised of its value.
#[verifier::external_body]
pub fn home_dir_string() -> Option<String> {
    dirs::home_dir().map(|p| p.to_string_lossy().into_owned())
}

/// The QR-code directory under a given home directory.
pub fn qr_dir_for(home: &str) -> (r: String)
    ensures
        r@ == home@ + "/.config/honeybee/qr"@,
{
    let mut s = String::from_str(home);
    s.append("/.config/honeybee/qr");
    s
}

/// The QR-code directory for this environment: under the home directory,
/// or the current directory when none is defined.
pub fn get_qr_code_dir() -> (r: String)
    ensures
        (exists|home: Seq<char>| r@ == home + "/.config/honeybee/qr"@) || r@ == "."@,
{
    match home_dir_string() {
        Some(home) => {
            let d = qr_dir_for(home.as_str());
            proof {
                assert(d@ == home@ + "/.config/honeybee/qr"@);
            }
            d
        },
        None => String::from_str("."),
    }
}

/// The QR-code image file inside a given QR directory.
pub fn qr_path_for(dir: &str) -> (r: String)
    ensures
        r@ == dir@ + "/honeybee-qr.png"@,
{
    let mut s = String::from_str(dir);
    s.append("/honeybee-qr.png");
    s
}

/// The QR-code image file for this environment: inside the QR directory
/// under the home directory, or under the current directory when no home
/// is defined.
pub fn get_qr_code_path() -> (r: String)
    ensures
        (exists|home: Seq<char>| r@ == home + "/.config/honeybee/qr/honeybee-qr.png"@) || r@
            == "./honeybee-qr.png"@,
{
    let dir = get_qr_code_dir();
    let p = qr_path_for(dir.as_str());
    proof {
        reveal_strlit("/.config/honeybee/qr");
        reveal_strlit("/honeybee-qr.png");
        reveal_strlit("/.config/honeybee/qr/honeybee-qr.png");
        reveal_strlit(".");
        reveal_strlit("./honeybee-qr.png");
        if exists|home: Seq<char>| dir@ == home + "/.config/honeybee/qr"@ {
            let home = choose|home: Seq<char>| dir@ == home + "/.config/honeybee/qr"@;
            assert(p@ =~= home + "/.config/honeybee/qr/honeybee-qr.png"@);
        } else {
            assert(p@ =~= "./honeybee-qr.png"@);
        }
    }
    p
}

/// The provisioning-retry socket under a given home directory.
pub fn ipc_socket_path_for(home: &str) -> (r: String)
    ensures
        r@ == home@ + "/.config/honeybee/provisioning.sock"@,
{
    let mut s = String::from_str(home);
    s.append("/.config/honeybee/provisioning.sock");
    s
}

/// The provisioning-retry socket for this environment: under the home
/// directory, or a fixed fallback when none is defined.
pub fn get_ipc_socket_path() -> (r: String)
    ensures
        (exists|home: Seq<char>| r@ == home + "/.config/honeybee/provisioning.sock"@) || r@
            == "/tmp/honeybee-provisioning.sock"@,
{
    match home_dir_string() {
        Some(home) => {
            let p = ipc_socket_path_for(home.as_str());
            proof {
                assert(p@ == home@ + "/.config/honeybee/provisioning.sock"@);
            }
            p
        },
        None => String::from_str("/tmp/honeybee-provisioning.sock"),
    }
}

} // verus!
