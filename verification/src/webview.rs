//! What the windows are told to load: the addresses of the UI pages on the
//! local asset server and the script that starts the UI.

use vstd::prelude::*;
use vstd::string::*;

verus! {

/// The character of one decimal digit.
pub open spec fn digit(d: nat) -> char
    recommends
        d < 10,
{
    if d == 0 {
        '0'
    } else if d == 1 {
        '1'
    } else if d == 2 {
        '2'
    } else if d == 3 {
        '3'
    } else if d == 4 {
        '4'
    } else if d == 5 {
        '5'
    } else if d == 6 {
        '6'
    } else if d == 7 {
        '7'
    } else if d == 8 {
        '8'
    } else {
        '9'
    }
}

/// The decimal digits of `n`, most significant first, without leading zeros.
pub open spec fn decimal(n: nat) -> Seq<char>
    decreases n,
{
    if n < 10 {
        seq![digit(n)]
    } else {
        decimal(n / 10).push(digit(n % 10))
    }
}

/// The address of the main page on the asset server at `port`.
pub open spec fn main_url_of(port: u16) -> Seq<char> {
    "http://localhost:"@ + decimal(port as nat)
}

/// The address of the robot console page on the asset server at `port`.
pub open spec fn console_url_of(port: u16) -> Seq<char> {
    "http://localhost:"@ + decimal(port as nat) + "/stdout"@
}

/// The script that starts the UI and tells it the asset server's port.
pub open spec fn start_script_of(port: u16) -> Seq<char> {
    "window.startapp("@ + decimal(port as nat) + ");"@
}

/// The text of one decimal digit.
fn digit_text(d: u16) -> (text: &'static str)
    requires
        d < 10,
    ensures
        text@ == seq![digit(d as nat)],
{
    proof {
        reveal_strlit("0");
        reveal_strlit("1");
        reveal_strlit("2");
        reveal_strlit("3");
        reveal_strlit("4");
        reveal_strlit("5");
        reveal_strlit("6");
        reveal_strlit("7");
        reveal_strlit("8");
        reveal_strlit("9");
    }
    if d == 0 {
        "0"
    } else if d == 1 {
        "1"
    } else if d == 2 {
        "2"
    } else if d == 3 {
        "3"
    } else if d == 4 {
        "4"
    } else if d == 5 {
        "5"
    } else if d == 6 {
        "6"
    } else if d == 7 {
        "7"
    } else if d == 8 {
        "8"
    } else {
        "9"
    }
}

/// Appends the decimal digits of `n` to `text`.
fn push_decimal(text: &mut String, n: u16)
    ensures
        final(text)@ == old(text)@ + decimal(n as nat),
    decreases n,
{
    if n >= 10 {
        push_decimal(text, n / 10);
    }
    text.append(digit_text(n % 10));
}

/// The address of the main page on the asset server at `port`.
pub fn main_url(port: u16) -> (url: String)
    ensures
        url@ == main_url_of(port),
{
    let mut url = String::from_str("http://localhost:");
    push_decimal(&mut url, port);
    url
}

/// The address of the robot console page on the asset server at `port`.
pub fn console_url(port: u16) -> (url: String)
    ensures
        url@ == console_url_of(port),
{
    let mut url = main_url(port);
    url.append("/stdout");
    url
}

/// The script that starts the UI and tells it the asset server's port.
pub fn start_script(port: u16) -> (script: String)
    ensures
        script@ == start_script_of(port),
{
    let mut script = String::from_str("window.startapp(");
    push_decimal(&mut script, port);
    script.append(");");
    script
}

} // verus!
