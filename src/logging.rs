use vstd::prelude::*;

verus! {

/// Severity of a log line.
#[derive(Clone, Copy, Debug, PartialEq, Eq, Structural)]
pub enum LogLevel {
    Info,
    Warn,
}

/// A log line: its severity and its text.
pub struct LogLine {
    pub level: LogLevel,
    pub message: String,
}

pub open spec fn digit_char(d: nat) -> char {
    if d == 0 {
        '0'
    } else if d == 1 {
        '1'
    } else if d == 2 {
        '2'
    } else if d == 3 {
        '3'
    } else if d == 4 {
        '4'
    } else if d == 5 {
        '5'
    } else if d == 6 {
        '6'
    } else if d == 7 {
        '7'
    } else if d == 8 {
        '8'
    } else {
        '9'
    }
}

/// The decimal digits of `n`, most significant first, without leading zeros.
pub open spec fn decimal_digits(n: nat) -> Seq<char>
    decreases n,
{
    if n < 10 {
        seq![digit_char(n)]
    } else {
        decimal_digits(n / 10).push(digit_char(n % 10))
    }
}

/// `n` written in decimal, with a leading `-` when negative.
pub open spec fn decimal(n: int) -> Seq<char> {
    if n < 0 {
        seq!['-'] + decimal_digits((-n) as nat)
    } else {
        decimal_digits(n as nat)
    }
}

fn digit_text(d: u64) -> (r: &'static str)
    requires
        d < 10,
    ensures
        r@ == seq![digit_char(d as nat)],
{
    proof {
        reveal_strlit("0");
        reveal_strlit("1");
        reveal_strlit("2");
        reveal_strlit("3");
        reveal_strlit("4");
        reveal_strlit("5");
        reveal_strlit("6");
        reveal_strlit("7");
        reveal_strlit("8");
        reveal_strlit("9");
    }
    let r = if d == 0 {
        "0"
    } else if d == 1 {
        "1"
    } else if d == 2 {
        "2"
    } else if d == 3 {
        "3"
    } else if d == 4 {
        "4"
    } else if d == 5 {
        "5"
    } else if d == 6 {
        "6"
    } else if d == 7 {
        "7"
    } else if d == 8 {
        "8"
    } else {
        "9"
    };
    assert(r@ =~= seq![digit_char(d as nat)]);
    r
}

fn append_digits(n: u64, out: &mut String)
    ensures
        final(out)@ == old(out)@ + decimal_digits(n as nat),
    decreases n,
{
    if n >= 10 {
        append_digits(n / 10, out);
    }
    let ghost before = out@;
    out.append(digit_text(n % 10));
    proof {
        if n >= 10 {
            assert(decimal_digits(n as nat) == decimal_digits((n / 10) as nat).push(
                digit_char((n % 10) as nat),
            ));
            assert(out@ =~= old(out)@ + decimal_digits(n as nat));
        } else {
            assert(out@ =~= old(out)@ + decimal_digits(n as nat));
        }
    }
}

/// `n` written in decimal.
pub fn unsigned_text(n: u64) -> (r: String)
    ensures
        r@ == decimal_digits(n as nat),
{
    let mut out = String::new();
    append_digits(n, &mut out);
    assert(out@ =~= decimal_digits(n as nat));
    out
}

/// `n` written in decimal, with a leading `-` when negative.
pub fn signed_text(n: i64) -> (r: String)
    ensures
        r@ == decimal(n as int),
{
    if n < 0 {
        proof {
            reveal_strlit("-");
        }
        let mut out = String::from_str("-");
        let magnitude: u64 = (-(n + 1)) as u64 + 1;
        append_digits(magnitude, &mut out);
        assert(out@ =~= decimal(n as int));
        out
    } else {
        unsigned_text(n as u64)
    }
}

/// The line that announces a request, with its user or as anonymous.
pub fn log_request_start(method: &str, path: &str, user_id: Option<i64>) -> (r: LogLine)
    ensures
        r.level == LogLevel::Info,
        r.message@ == "Request: "@ + method@ + " "@ + path@ + match user_id {
            Some(id) => " (User: "@ + decimal(id as int) + ")"@,
            None => " (Anonymous)"@,
        },
{
    let head = String::from_str("Request: ").concat(method).concat(" ").concat(path);
    let message = match user_id {
        Some(id) => {
            let who = signed_text(id);
            head.concat(" (User: ").concat(who.as_str()).concat(")")
        },
        None => head.concat(" (Anonymous)"),
    };
    proof {
        match user_id {
            Some(id) => {
                assert(message@ =~= "Request: "@ + method@ + " "@ + path@ + (" (User: "@ + decimal(
                    id as int,
                ) + ")"@));
            },
            None => {},
        }
    }
    LogLine { level: LogLevel::Info, message }
}

/// The line that records a database operation, with its row count if known.
pub fn log_database_operation(operation: &str, table: &str, affected_rows: Option<usize>) -> (r:
    LogLine)
    ensures
        r.level == LogLevel::Info,
        r.message@ == "DB "@ + operation@ + ": "@ + table@ + match affected_rows {
            Some(rows) => " ("@ + decimal_digits(rows as nat) + " rows)"@,
            None => Seq::<char>::empty(),
        },
{
    let head = String::from_str("DB ").concat(operation).concat(": ").concat(table);
    let message = match affected_rows {
        Some(rows) => {
            let count = unsigned_text(rows as u64);
            head.concat(" (").concat(count.as_str()).concat(" rows)")
        },
        None => head,
    };
    proof {
        match affected_rows {
            Some(rows) => {
                assert(message@ =~= "DB "@ + operation@ + ": "@ + table@ + (" ("@ + decimal_digits(
                    rows as nat,
                ) + " rows)"@));
            },
            None => {
                assert(message@ =~= "DB "@ + operation@ + ": "@ + table@ + Seq::<char>::empty());
            },
        }
    }
    LogLine { level: LogLevel::Info, message }
}

/// The line that records an authentication event: informational on success,
/// a warning on failure.
pub fn log_auth_event(event: &str, user_email: &str, success: bool) -> (r: LogLine)
    ensures
        r.level == (if success {
            LogLevel::Info
        } else {
            LogLevel::Warn
        }),
        r.message@ == (if success {
            "Auth success: "@
        } else {
            "Auth failure: "@
        }) + event@ + " for "@ + user_email@,
{
    if success {
        let message = String::from_str("Auth success: ").concat(event).concat(" for ").concat(
            user_email,
        );
        LogLine { level: LogLevel::Info, message }
    } else {
        let message = String::from_str("Auth failure: ").concat(event).concat(" for ").concat(
            user_email,
        );
        LogLine { level: LogLevel::Warn, message }
    }
}

} // verus!
