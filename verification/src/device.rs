//! The commands that load and start games on a Playdate connected by USB: finding its serial
//! port among the ports of the computer, and the lines sent to it. The ports are listed, and
//! the lines written, by the caller.
use vstd::prelude::*;

use vstd::string::StringSliceAdditionalSpecFns;
use vstd::utf8::encode_utf8;

verus! {

/// What the computer tells of a USB serial port
pub struct UsbInfo {
    /// The manufacturer of the device, when it tells one
    pub manufacturer: Option<String>,
    /// The product, when the device tells one
    pub product: Option<String>,
}

/// A serial port of the computer
pub struct PortInfo {
    /// The name under which the port is opened
    pub port_name: String,
    /// What the computer tells of the device, for a USB port
    pub usb: Option<UsbInfo>,
}

/// Whether an optional text is `text`.
pub open spec fn is_text(t: Option<String>, text: Seq<char>) -> bool {
    t matches Some(s) && s@ == text
}

/// Whether a port is the serial port of a Playdate: a USB port of the product `Playdate` made
/// by `Panic Inc`.
pub open spec fn is_playdate_port(p: PortInfo) -> bool {
    p.usb matches Some(usb) && is_text(usb.manufacturer, "Panic Inc"@) && is_text(
        usb.product,
        "Playdate"@,
    )
}

/// The first port from position `i` that is the serial port of a Playdate.
pub open spec fn playdate_port_from(ports: Seq<PortInfo>, i: nat) -> Option<nat>
    decreases ports.len() - i,
{
    if i >= ports.len() {
        None
    } else if is_playdate_port(ports[i as int]) {
        Some(i)
    } else {
        playdate_port_from(ports, i + 1)
    }
}

/// Whether an optional text is `text`.
fn text_is(t: &Option<String>, text: &String) -> (r: bool)
    ensures
        r == is_text(*t, text@),
{
    match t {
        Some(s) => *s == *text,
        None => false,
    }
}

/// The position of the first port that is the serial port of a Playdate, if there is one
pub fn find_port(ports: &Vec<PortInfo>) -> (r: Option<usize>)
    ensures
        match r {
            Some(i) => playdate_port_from(ports@, 0) == Some(i as nat),
            None => playdate_port_from(ports@, 0) is None,
        },
{
    let manufacturer = "Panic Inc".to_owned();
    let product = "Playdate".to_owned();
    let mut i: usize = 0;
    while i < ports.len()
        invariant
            i <= ports@.len(),
            manufacturer@ == "Panic Inc"@,
            product@ == "Playdate"@,
            playdate_port_from(ports@, i as nat) == playdate_port_from(ports@, 0),
        decreases ports@.len() - i,
    {
        let found = match &ports[i].usb {
            Some(usb) => text_is(&usb.manufacturer, &manufacturer) && text_is(
                &usb.product,
                &product,
            ),
            None => false,
        };
        if found {
            return Some(i);
        }
        i = i + 1;
    }
    None
}

/// The bytes of `s` followed by those of `t`.
fn bytes_of(s: &str, t: &str) -> (r: Vec<u8>)
    ensures
        r@ == s.spec_bytes() + t.spec_bytes(),
{
    let a = s.as_bytes();
    let b = t.as_bytes();
    let mut r: Vec<u8> = Vec::new();
    let mut i: usize = 0;
    while i < a.len()
        invariant
            i <= a@.len(),
            r@ == a@.take(i as int),
        decreases a@.len() - i,
    {
        r.push(a[i]);
        i = i + 1;
        assert(a@.take(i as int) == a@.take(i - 1).push(a@[i - 1]));
    }
    let mut j: usize = 0;
    while j < b.len()
        invariant
            j <= b@.len(),
            r@ == a@ + b@.take(j as int),
        decreases b@.len() - j,
    {
        r.push(b[j]);
        j = j + 1;
        assert(b@.take(j as int) == b@.take(j - 1).push(b@[j - 1]));
        assert(a@ + b@.take(j as int) == (a@ + b@.take(j - 1)).push(b@[j - 1]));
    }
    assert(a@.take(a@.len() as int) == a@);
    assert(b@.take(b@.len() as int) == b@);
    r
}

/// The command that starts the game `game` of the `Games` folder of the device: `run
/// /Games/` and the name
pub fn run_game_command(game: &str) -> (r: Vec<u8>)
    ensures
        r@ == encode_utf8("run /Games/"@) + game.spec_bytes(),
{
    bytes_of("run /Games/", game)
}

/// The command that mounts the data disk of the device on the computer
pub fn data_disk_command() -> (r: Vec<u8>)
    ensures
        r@ == encode_utf8("datadisk"@),
{
    let r = bytes_of("datadisk", "");
    proof {
        reveal_strlit("");
        assert(encode_utf8(""@) =~= Seq::<u8>::empty());
        assert(encode_utf8("datadisk"@) + Seq::<u8>::empty() =~= encode_utf8("datadisk"@));
    }
    r
}

/// The line sent to the device for a command: the command, then a carriage return and a line
/// feed
pub fn command_line(command: &[u8]) -> (r: Vec<u8>)
    ensures
        r@ == command@ + seq![0x0Du8, 0x0Au8],
{
    let mut r: Vec<u8> = Vec::new();
    let mut i: usize = 0;
    while i < command.len()
        invariant
            i <= command@.len(),
            r@ == command@.take(i as int),
        decreases command@.len() - i,
    {
        r.push(command[i]);
        i = i + 1;
        assert(command@.take(i as int) == command@.take(i - 1).push(command@[i - 1]));
    }
    assert(command@.take(command@.len() as int) == command@);
    r.push(0x0D);
    r.push(0x0A);
    r
}

} // verus!
