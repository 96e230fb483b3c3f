use vstd::prelude::*;

verus! {

/// The ways an operation on the store can fail.
#[derive(Debug, Clone, Copy, PartialEq, Eq, Structural)]
pub enum AppError {
    /// The title is empty once its surrounding whitespace is trimmed.
    EmptyTitle,
    /// No stored task carries this identifier.
    IdNotFound(u64),
    /// The store could not serve the request (its lock was unavailable, or
    /// its identifiers are exhausted).
    Internal,
}


/// The decimal digit `d` as a character.
pub open spec fn digit_char(d: nat) -> char {
    if d == 0 {
        '0'
    } else if d == 1 {
        '1'
    } else if d == 2 {
        '2'
    } else if d == 3 {
        '3'
    } else if d == 4 {
        '4'
    } else if d == 5 {
        '5'
    } else if d == 6 {
        '6'
    } else if d == 7 {
        '7'
    } else if d == 8 {
        '8'
    } else {
        '9'
    }
}

/// The decimal notation of `n`, without leading zeros.
pub open spec fn decimal(n: nat) -> Seq<char>
    decreases n,
{
    if n < 10 {
        seq![digit_char(n)]
    } else {
        decimal(n / 10).push(digit_char(n % 10))
    }
}

fn digit_str(d: u64) -> (r: &'static str)
    requires
        d < 10,
    ensures
        r@ == seq![digit_char(d as nat)],
{
    proof {
        reveal_strlit("0");
        reveal_strlit("1");
        reveal_strlit("2");
        reveal_strlit("3");
        reveal_strlit("4");
        reveal_strlit("5");
        reveal_strlit("6");
        reveal_strlit("7");
        reveal_strlit("8");
        reveal_strlit("9");
    }
    let r = if d == 0 {
        "0"
    } else if d == 1 {
        "1"
    } else if d == 2 {
        "2"
    } else if d == 3 {
        "3"
    } else if d == 4 {
        "4"
    } else if d == 5 {
        "5"
    } else if d == 6 {
        "6"
    } else if d == 7 {
        "7"
    } else if d == 8 {
        "8"
    } else {
        "9"
    };
    assert(r@ =~= seq![digit_char(d as nat)]);
    r
}

/// The decimal notation of `n`.
pub fn decimal_text(n: u64) -> (r: String)
    ensures
        r@ == decimal(n as nat),
    decreases n,
{
    if n < 10 {
        String::from_str(digit_str(n))
    } else {
        let mut s = decimal_text(n / 10);
        s.append(digit_str(n % 10));
        assert(s@ =~= decimal(n as nat));
        s
    }
}

/// The text that names an error to a client.
pub open spec fn message_of(e: AppError) -> Seq<char> {
    match e {
        AppError::EmptyTitle => "`title` field of `Task` cannot be empty!"@,
        AppError::IdNotFound(id) => "`"@ + decimal(id as nat) + "` id not found!"@,
        AppError::Internal => "Internal server error!"@,
    }
}

/// The HTTP status that an error maps to: a client error for a blank title,
/// distinct from the 404 of a missing identifier, and 500 for the rest.
pub open spec fn status_of(e: AppError) -> u16 {
    match e {
        AppError::EmptyTitle => 422,
        AppError::IdNotFound(_) => 404,
        AppError::Internal => 500,
    }
}

impl AppError {
    pub fn status_code(&self) -> (r: u16)
        ensures
            r == status_of(*self),
    {
        match self {
            AppError::EmptyTitle => 422,
            AppError::IdNotFound(_) => 404,
            AppError::Internal => 500,
        }
    }

    /// The error's text, as a response body names it.
    pub fn message(&self) -> (r: String)
        ensures
            r@ == message_of(*self),
    {
        match self {
            AppError::EmptyTitle => String::from_str("`title` field of `Task` cannot be empty!"),
            AppError::IdNotFound(id) => {
                let mut s = String::from_str("`");
                let digits = decimal_text(*id);
                s.append(digits.as_str());
                s.append("` id not found!");
                s
            },
            AppError::Internal => String::from_str("Internal server error!"),
        }
    }
}

/// The operations that the store offers to the request handlers.
#[derive(Debug, Clone, Copy, PartialEq, Eq, Structural)]
pub enum Operation {
    Insert,
    FindAll,
    FindById,
    Update,
    Delete,
}

/// The HTTP status of a successful operation: 201 where a task was written
/// (insert, update), 200 otherwise.
pub open spec fn success_status_of(op: Operation) -> u16 {
    match op {
        Operation::Insert | Operation::Update => 201,
        _ => 200,
    }
}

impl Operation {
    pub fn success_status(&self) -> (r: u16)
        ensures
            r == success_status_of(*self),
    {
        match self {
            Operation::Insert | Operation::Update => 201,
            _ => 200,
        }
    }
}

} // verus!
