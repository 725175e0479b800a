use vstd::prelude::*;

verus! {

/// The bucket that recordings are stored in.
pub open spec fn bucket_name() -> Seq<char> {
    "ghost-videos"@
}

/// For how many seconds a presigned upload address stays valid.
pub const SAVE_URL_SECONDS: u64 = 3000;

/// The character that stands for a digit from 0 to 9.
pub open spec fn digit_char(digit: int) -> char {
    if digit == 0 {
        '0'
    } else if digit == 1 {
        '1'
    } else if digit == 2 {
        '2'
    } else if digit == 3 {
        '3'
    } else if digit == 4 {
        '4'
    } else if digit == 5 {
        '5'
    } else if digit == 6 {
        '6'
    } else if digit == 7 {
        '7'
    } else if digit == 8 {
        '8'
    } else {
        '9'
    }
}

/// The decimal digits of a natural number, without leading zeros.
pub open spec fn decimal_digits(number: nat) -> Seq<char>
    decreases number,
{
    if number < 10 {
        seq![digit_char(number as int)]
    } else {
        decimal_digits(number / 10).push(digit_char((number % 10) as int))
    }
}

/// A whole number in decimal, with a minus sign in front where it is
/// negative.
pub open spec fn decimal(number: int) -> Seq<char> {
    if number < 0 {
        seq!['-'] + decimal_digits((-number) as nat)
    } else {
        decimal_digits(number as nat)
    }
}

/// The key under which the recording of a session that started at the given
/// instant is stored: the session, a slash, the instant in decimal, `.mp4`.
pub open spec fn object_key(session_id: Seq<char>, start_timestamp_nanos: int) -> Seq<char> {
    session_id + "/"@ + decimal(start_timestamp_nanos) + ".mp4"@
}

/// The bucket that recordings are stored in.
pub fn recordings_bucket() -> (name: String)
    ensures
        name@ == bucket_name(),
{
    String::from_str("ghost-videos")
}

/// One digit as text.
fn digit_text(digit: u64) -> (text: &'static str)
    requires
        digit < 10,
    ensures
        text@ == seq![digit_char(digit as int)],
{
    proof {
        reveal_strlit("0");
        reveal_strlit("1");
        reveal_strlit("2");
        reveal_strlit("3");
        reveal_strlit("4");
        reveal_strlit("5");
        reveal_strlit("6");
        reveal_strlit("7");
        reveal_strlit("8");
        reveal_strlit("9");
    }
    let text = if digit == 0 {
        "0"
    } else if digit == 1 {
        "1"
    } else if digit == 2 {
        "2"
    } else if digit == 3 {
        "3"
    } else if digit == 4 {
        "4"
    } else if digit == 5 {
        "5"
    } else if digit == 6 {
        "6"
    } else if digit == 7 {
        "7"
    } else if digit == 8 {
        "8"
    } else {
        "9"
    };
    assert(text@ =~= seq![digit_char(digit as int)]);
    text
}

/// A natural number in decimal.
fn digits_text(number: u64) -> (text: String)
    ensures
        text@ == decimal_digits(number as nat),
    decreases number,
{
    if number < 10 {
        String::from_str(digit_text(number))
    } else {
        let text = digits_text(number / 10).concat(digit_text(number % 10));
        assert(text@ =~= decimal_digits(number as nat));
        text
    }
}

/// A whole number in decimal.
pub fn decimal_text(number: i64) -> (text: String)
    ensures
        text@ == decimal(number as int),
{
    if number < 0 {
        let magnitude: u64 = (-(number as i128)) as u64;
        proof {
            reveal_strlit("-");
            assert("-"@ =~= seq!['-']);
        }
        String::from_str("-").concat(digits_text(magnitude).as_str())
    } else {
        digits_text(number as u64)
    }
}

/// The key under which a recording is stored.
pub fn recording_object_key(session_id: &str, start_timestamp_nanos: i64) -> (key: String)
    ensures
        key@ == object_key(session_id@, start_timestamp_nanos as int),
{
    String::from_str(session_id).concat("/").concat(
        decimal_text(start_timestamp_nanos).as_str(),
    ).concat(".mp4")
}

} // verus!
