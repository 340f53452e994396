use vstd::prelude::*;

verus! {

/// Status codes 200 to 299.
pub open spec fn is_success_code(code: u16) -> bool {
    200 <= code && code < 300
}

/// Status codes 500 to 599.
pub open spec fn is_server_error_code(code: u16) -> bool {
    500 <= code && code < 600
}

/// Status codes that `http::StatusCode` can hold.
pub open spec fn is_valid_status_code(code: u16) -> bool {
    100 <= code && code < 1000
}

/// The text that `http::StatusCode` displays for a code: the number and
/// its canonical reason phrase.
pub uninterp spec fn status_display_of(code: u16) -> Seq<char>;

/// Relies on `http::StatusCode::from_u16`, which accepts 100 to 999, and on
/// the `Display` impl of `http::StatusCode`.
#[verifier::external_body]
fn status_display(code: u16) -> (r: String)
    requires
        is_valid_status_code(code),
    ensures
        r@ == status_display_of(code),
{
    http::StatusCode::from_u16(code).unwrap().to_string()
}

/// The display text of a status code, as `http::StatusCode` writes it.
pub fn status_display_text(code: u16) -> (r: String)
    requires
        is_valid_status_code(code),
    ensures
        r@ == status_display_of(code),
{
    status_display(code)
}

/// The character of a decimal digit.
pub open spec fn digit_char(d: nat) -> char {
    if d == 0 { '0' }
    else if d == 1 { '1' }
    else if d == 2 { '2' }
    else if d == 3 { '3' }
    else if d == 4 { '4' }
    else if d == 5 { '5' }
    else if d == 6 { '6' }
    else if d == 7 { '7' }
    else if d == 8 { '8' }
    else { '9' }
}

/// The decimal representation of a number, without leading zeros.
pub open spec fn decimal_of(n: nat) -> Seq<char>
    decreases n,
{
    if n < 10 {
        seq![digit_char(n)]
    } else {
        decimal_of(n / 10).push(digit_char(n % 10))
    }
}

fn digit_str(d: usize) -> (r: &'static str)
    requires
        d < 10,
    ensures
        r@ == seq![digit_char(d as nat)],
{
    proof {
        reveal_strlit("0");
        reveal_strlit("1");
        reveal_strlit("2");
        reveal_strlit("3");
        reveal_strlit("4");
        reveal_strlit("5");
        reveal_strlit("6");
        reveal_strlit("7");
        reveal_strlit("8");
        reveal_strlit("9");
    }
    let r = if d == 0 { "0" }
    else if d == 1 { "1" }
    else if d == 2 { "2" }
    else if d == 3 { "3" }
    else if d == 4 { "4" }
    else if d == 5 { "5" }
    else if d == 6 { "6" }
    else if d == 7 { "7" }
    else if d == 8 { "8" }
    else { "9" };
    assert(r@ =~= seq![digit_char(d as nat)]);
    r
}

/// Writes a number in decimal, as `usize`'s `Display` does.
pub fn decimal_string(n: usize) -> (r: String)
    ensures
        r@ == decimal_of(n as nat),
    decreases n,
{
    if n < 10 {
        digit_str(n).to_owned()
    } else {
        let mut s = decimal_string(n / 10);
        s.append(digit_str(n % 10));
        assert(s@ =~= decimal_of(n as nat));
        s
    }
}

} // verus!
