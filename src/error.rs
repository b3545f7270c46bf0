use vstd::prelude::*;

verus! {

/// The failures that the library reports.
#[derive(Debug)]
pub enum AppError {
    /// The store failed; the text is for the log only.
    Database(String),
    BadRequest(String),
    /// No row has the requested id.
    NotFound(String),
    Scraper(String),
    Config(String),
    Internal(String),
}

/// The decimal digits of `n`.
pub open spec fn digits(n: nat) -> Seq<char>
    decreases n,
{
    if n < 10 {
        seq![digit(n)]
    } else {
        digits(n / 10).push(digit(n % 10))
    }
}

pub open spec fn digit(d: nat) -> char {
    (('0' as nat) + d) as char
}

/// `n` in decimal, with a leading `-` when it is negative.
pub open spec fn decimal(n: int) -> Seq<char> {
    if n < 0 {
        seq!['-'] + digits((-n) as nat)
    } else {
        digits(n as nat)
    }
}

/// `<entity> with id <id> not found`
pub open spec fn not_found_text(entity: Seq<char>, id: int) -> Seq<char> {
    entity + " with id "@ + decimal(id) + " not found"@
}

/// `e` is the not-found error for the row `id` of `entity`.
pub open spec fn is_not_found(e: AppError, entity: Seq<char>, id: int) -> bool {
    match e {
        AppError::NotFound(m) => m@ == not_found_text(entity, id),
        _ => false,
    }
}

fn digit_text(d: u64) -> (r: &'static str)
    requires
        d < 10,
    ensures
        r@ == seq![digit(d as nat)],
{
    proof {
        reveal_strlit("0");
        reveal_strlit("1");
        reveal_strlit("2");
        reveal_strlit("3");
        reveal_strlit("4");
        reveal_strlit("5");
        reveal_strlit("6");
        reveal_strlit("7");
        reveal_strlit("8");
        reveal_strlit("9");
    }
    let r = if d == 0 {
        "0"
    } else if d == 1 {
        "1"
    } else if d == 2 {
        "2"
    } else if d == 3 {
        "3"
    } else if d == 4 {
        "4"
    } else if d == 5 {
        "5"
    } else if d == 6 {
        "6"
    } else if d == 7 {
        "7"
    } else if d == 8 {
        "8"
    } else {
        "9"
    };
    assert(r@ =~= seq![digit(d as nat)]);
    r
}

fn append_digits(s: &mut String, n: u64)
    ensures
        final(s)@ == old(s)@ + digits(n as nat),
    decreases n,
{
    if n >= 10 {
        append_digits(s, n / 10);
    }
    s.append(digit_text(n % 10));
    proof {
        if n < 10 {
            assert(final(s)@ =~= old(s)@ + digits(n as nat));
        } else {
            assert(final(s)@ =~= old(s)@ + digits(n as nat));
        }
    }
}

/// Appends `n` in decimal.
pub fn append_decimal(s: &mut String, n: i64)
    ensures
        final(s)@ == old(s)@ + decimal(n as int),
{
    if n < 0 {
        s.append("-");
        let m: u64 = if n == i64::MIN {
            0x8000_0000_0000_0000u64
        } else {
            (-n) as u64
        };
        append_digits(s, m);
        proof {
            reveal_strlit("-");
            assert(final(s)@ =~= old(s)@ + decimal(n as int));
        }
    } else {
        append_digits(s, n as u64);
    }
}

impl AppError {
    /// The not-found error for the row `id` of `entity`.
    pub fn not_found(entity: &str, id: i64) -> (r: AppError)
        ensures
            is_not_found(r, entity@, id as int),
    {
        let mut m = String::from_str(entity);
        m.append(" with id ");
        append_decimal(&mut m, id);
        m.append(" not found");
        proof {
            assert(m@ =~= not_found_text(entity@, id as int));
        }
        AppError::NotFound(m)
    }

    /// The HTTP status that the error maps to.
    pub fn status_code(&self) -> (r: u16)
        ensures
            r == match *self {
                AppError::NotFound(_) => 404u16,
                AppError::BadRequest(_) => 400u16,
                _ => 500u16,
            },
    {
        match self {
            AppError::NotFound(_) => 404,
            AppError::BadRequest(_) => 400,
            _ => 500,
        }
    }

    /// The short text that a caller sees: the message of a not-found or a
    /// bad-request error, a fixed category for the others, whose details
    /// stay out of the response.
    pub fn public_message(&self) -> (r: String)
        ensures
            r@ == match *self {
                AppError::NotFound(m) => m@,
                AppError::BadRequest(m) => m@,
                AppError::Database(_) => "Database error occurred"@,
                AppError::Config(_) => "Configuration error"@,
                AppError::Internal(_) => "Internal server error"@,
                AppError::Scraper(_) => "Data scraping error"@,
            },
    {
        match self {
            AppError::NotFound(m) => m.clone(),
            AppError::BadRequest(m) => m.clone(),
            AppError::Database(_) => String::from_str("Database error occurred"),
            AppError::Config(_) => String::from_str("Configuration error"),
            AppError::Internal(_) => String::from_str("Internal server error"),
            AppError::Scraper(_) => String::from_str("Data scraping error"),
        }
    }
}

} // verus!
