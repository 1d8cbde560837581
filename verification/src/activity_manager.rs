//! The activity manager's decisions: which activity runs next once the
//! current one signals, and how a submitted authentication form becomes
//! connection parameters. The tick loop that draws and sleeps lives with
//! the caller.

use vstd::prelude::*;

verus! {

use vstd::string::StrSliceExecFns;
use crate::activity::FileTransferParams;
use crate::filetransfer::FileTransferProtocol;
use crate::utils::{all_digits, dec_value, parse_u16_bytes, lemma_ascii_str_chars, chars_of};

/// The next activity to run once the current one has ended.
#[derive(PartialEq, Eq, Structural, Debug, Clone, Copy)]
pub enum NextActivity {
    Authentication,
    FileTransfer,
}

/// What the authentication tick loop does next: `None` keeps ticking;
/// `Some(None)` leaves the program; `Some(Some(_))` launches the next
/// activity. Quitting wins over a submitted form.
pub fn next_after_auth(quit: bool, submit: bool) -> (r: Option<Option<NextActivity>>)
    ensures
        r == if quit {
            Some(None::<NextActivity>)
        } else if submit {
            Some(Some(NextActivity::FileTransfer))
        } else {
            None::<Option<NextActivity>>
        },
{
    if quit {
        Some(None)
    } else if submit {
        Some(Some(NextActivity::FileTransfer))
    } else {
        None
    }
}

/// What the file-transfer tick loop does next: quitting leaves the
/// program; a disconnect returns to authentication; else keep ticking.
pub fn next_after_filetransfer(quit: bool, disconnected: bool) -> (r: Option<
    Option<NextActivity>,
>)
    ensures
        r == if quit {
            Some(None::<NextActivity>)
        } else if disconnected {
            Some(Some(NextActivity::Authentication))
        } else {
            None::<Option<NextActivity>>
        },
{
    if quit {
        Some(None)
    } else if disconnected {
        Some(Some(NextActivity::Authentication))
    } else {
        None
    }
}

/// The port field of an authentication form parses to a 16-bit number.
pub open spec fn port_parses(p: Seq<char>) -> bool {
    let b = Seq::new(p.len(), |i: int| p[i] as u8);
    p.len() > 0 && (forall|i: int| 0 <= i < p.len() ==> '\0' <= #[trigger] p[i] <= '\u{7f}')
        && all_digits(b) && dec_value(b) <= u16::MAX
}

/// The number the port field denotes.
pub open spec fn port_value(p: Seq<char>) -> int {
    dec_value(Seq::new(p.len(), |i: int| p[i] as u8))
}

/// Build connection parameters from a submitted authentication form: the
/// port text must be a decimal 16-bit number, and empty user and password
/// fields mean none was given.
pub fn auth_params(
    address: String,
    port: &str,
    username: String,
    password: String,
    protocol: FileTransferProtocol,
) -> (r: Option<FileTransferParams>)
    ensures
        r is Some <==> port_parses(port@),
        (r matches Some(p) ==> {
            &&& p.address == address
            &&& p.port == port_value(port@)
            &&& p.protocol == protocol
            &&& (if username@.len() == 0 {
                p.username is None
            } else {
                p.username == Some(username)
            })
            &&& (if password@.len() == 0 {
                p.password is None
            } else {
                p.password == Some(password)
            })
        }),
{
    if !port.is_ascii() {
        // A port with characters outside ASCII cannot be all digits.
        proof {
            let b = Seq::new(port@.len(), |i: int| port@[i] as u8);
            assert(!port_parses(port@));
        }
        return None;
    }
    proof {
        lemma_ascii_str_chars(port);
    }
    let pb = port.as_bytes_vec();
    let pnum: u16 = match parse_u16_bytes(pb.as_slice()) {
        Some(n) => n,
        None => {
            proof {
                assert(pb@ =~= Seq::new(port@.len(), |i: int| port@[i] as u8));
            }
            return None;
        },
    };
    proof {
        assert(pb@ =~= Seq::new(port@.len(), |i: int| port@[i] as u8));
    }
    Some(
        FileTransferParams {
            address,
            port: pnum,
            protocol,
            username: if username.as_str().is_empty() {
                None
            } else {
                Some(username)
            },
            password: if password.as_str().is_empty() {
                None
            } else {
                Some(password)
            },
        },
    )
}

} // verus!
