//! Error taxonomy of the bridge.
//!
//! Failures are kept structured inside the library (a kind plus a message)
//! and flattened to a plain string only at the host-delivery step.

use vstd::prelude::*;

verus! {

/// The decimal digit `d` as a character, for `d < 10`.
pub open spec fn spec_digit(d: nat) -> char {
    if d == 0 {
        '0'
    } else if d == 1 {
        '1'
    } else if d == 2 {
        '2'
    } else if d == 3 {
        '3'
    } else if d == 4 {
        '4'
    } else if d == 5 {
        '5'
    } else if d == 6 {
        '6'
    } else if d == 7 {
        '7'
    } else if d == 8 {
        '8'
    } else {
        '9'
    }
}

/// The decimal rendering of `n`, most significant digit first.
pub open spec fn spec_decimal(n: nat) -> Seq<char>
    decreases n,
{
    if n < 10 {
        seq![spec_digit(n)]
    } else {
        spec_decimal(n / 10).push(spec_digit(n % 10))
    }
}

fn digit_str(d: u64) -> (r: &'static str)
    requires
        d < 10,
    ensures
        r@ == seq![spec_digit(d as nat)],
{
    proof {
        reveal_strlit("0");
        reveal_strlit("1");
        reveal_strlit("2");
        reveal_strlit("3");
        reveal_strlit("4");
        reveal_strlit("5");
        reveal_strlit("6");
        reveal_strlit("7");
        reveal_strlit("8");
        reveal_strlit("9");
    }
    let r = match d {
        0 => "0",
        1 => "1",
        2 => "2",
        3 => "3",
        4 => "4",
        5 => "5",
        6 => "6",
        7 => "7",
        8 => "8",
        _ => "9",
    };
    proof {
        assert(r@ =~= seq![spec_digit(d as nat)]);
    }
    r
}

/// Renders `n` in decimal.
pub fn decimal_string(n: u64) -> (r: String)
    ensures
        r@ == spec_decimal(n as nat),
    decreases n,
{
    if n < 10 {
        digit_str(n).to_owned()
    } else {
        assert(n / 10 < n && n / 10 >= 1) by (nonlinear_arith)
            requires
                n >= 10,
        ;
        let mut s = decimal_string(n / 10);
        s.append(digit_str(n % 10));
        proof {
            assert(s@ =~= spec_decimal(n as nat));
        }
        s
    }
}

fn labeled(label: &'static str, m: &str) -> (r: String)
    ensures
        r@ == label@ + m@,
{
    let mut s = label.to_owned();
    s.append(m);
    s
}

/// Failure of a database operation or of the connection to the server.
#[derive(Debug, Clone, PartialEq, Eq)]
pub enum MongoError {
    Connection(String),
    Authentication(String),
    Operation(String),
    InvalidQuery(String),
    CollectionNotFound(String),
    DatabaseNotFound(String),
    ValidationError(String),
    IndexError(String),
    TransactionError(String),
    Timeout(u64),
    DriverError(String),
}

impl MongoError {
    /// The one-line description of this error.
    pub open spec fn spec_message(&self) -> Seq<char> {
        match self {
            MongoError::Connection(m) => "Connection error: "@ + m@,
            MongoError::Authentication(m) => "Authentication failed: "@ + m@,
            MongoError::Operation(m) => "Database operation failed: "@ + m@,
            MongoError::InvalidQuery(m) => "Invalid query: "@ + m@,
            MongoError::CollectionNotFound(m) => "Collection not found: "@ + m@,
            MongoError::DatabaseNotFound(m) => "Database not found: "@ + m@,
            MongoError::ValidationError(m) => "Document validation failed: "@ + m@,
            MongoError::IndexError(m) => "Index error: "@ + m@,
            MongoError::TransactionError(m) => "Transaction error: "@ + m@,
            MongoError::Timeout(s) => "Timeout: operation took longer than "@ + spec_decimal(
                *s as nat,
            ) + "s"@,
            MongoError::DriverError(m) => "MongoDB driver error: "@ + m@,
        }
    }

    /// Renders this error as its one-line description.
    pub fn message(&self) -> (r: String)
        ensures
            r@ == self.spec_message(),
    {
        match self {
            MongoError::Connection(m) => labeled("Connection error: ", m.as_str()),
            MongoError::Authentication(m) => labeled("Authentication failed: ", m.as_str()),
            MongoError::Operation(m) => labeled("Database operation failed: ", m.as_str()),
            MongoError::InvalidQuery(m) => labeled("Invalid query: ", m.as_str()),
            MongoError::CollectionNotFound(m) => labeled("Collection not found: ", m.as_str()),
            MongoError::DatabaseNotFound(m) => labeled("Database not found: ", m.as_str()),
            MongoError::ValidationError(m) => labeled("Document validation failed: ", m.as_str()),
            MongoError::IndexError(m) => labeled("Index error: ", m.as_str()),
            MongoError::TransactionError(m) => labeled("Transaction error: ", m.as_str()),
            MongoError::Timeout(s) => {
                let mut out = "Timeout: operation took longer than ".to_owned();
                let secs = decimal_string(*s);
                out.append(secs.as_str());
                out.append("s");
                proof {
                    assert(out@ =~= self.spec_message());
                }
                out
            },
            MongoError::DriverError(m) => labeled("MongoDB driver error: ", m.as_str()),
        }
    }
}

/// Failure while reading or producing a host-side value.
#[derive(Debug, Clone, PartialEq, Eq)]
pub enum LuaError {
    InvalidArgument { position: usize, message: String },
    TypeConversion { expected: String, actual: String },
    MissingField(String),
    TableConversion(String),
    InvalidUserdata(String),
}

impl LuaError {
    /// The one-line description of this error.
    pub open spec fn spec_message(&self) -> Seq<char> {
        match self {
            LuaError::InvalidArgument { position, message } => "Invalid argument at position "@
                + spec_decimal(*position as nat) + ": "@ + message@,
            LuaError::TypeConversion { expected, actual } => "Type conversion error: expected "@
                + expected@ + ", got "@ + actual@,
            LuaError::MissingField(m) => "Missing required field: "@ + m@,
            LuaError::TableConversion(m) => "Lua table conversion error: "@ + m@,
            LuaError::InvalidUserdata(m) => "Invalid userdata: "@ + m@,
        }
    }

    /// Renders this error as its one-line description.
    pub fn message(&self) -> (r: String)
        ensures
            r@ == self.spec_message(),
    {
        match self {
            LuaError::InvalidArgument { position, message } => {
                let mut out = "Invalid argument at position ".to_owned();
                let pos = decimal_string(*position as u64);
                out.append(pos.as_str());
                out.append(": ");
                out.append(message.as_str());
                proof {
                    assert(out@ =~= self.spec_message());
                }
                out
            },
            LuaError::TypeConversion { expected, actual } => {
                let mut out = "Type conversion error: expected ".to_owned();
                out.append(expected.as_str());
                out.append(", got ");
                out.append(actual.as_str());
                proof {
                    assert(out@ =~= self.spec_message());
                }
                out
            },
            LuaError::MissingField(m) => labeled("Missing required field: ", m.as_str()),
            LuaError::TableConversion(m) => labeled("Lua table conversion error: ", m.as_str()),
            LuaError::InvalidUserdata(m) => labeled("Invalid userdata: ", m.as_str()),
        }
    }
}

/// Failure while validating a connection configuration.
#[derive(Debug, Clone, PartialEq, Eq)]
pub enum ConfigError {
    InvalidConnectionString(String),
    InvalidConfig(String),
    MissingConfig(String),
}

impl ConfigError {
    /// The one-line description of this error.
    pub open spec fn spec_message(&self) -> Seq<char> {
        match self {
            ConfigError::InvalidConnectionString(m) => "Invalid connection string: "@ + m@,
            ConfigError::InvalidConfig(m) => "Invalid configuration: "@ + m@,
            ConfigError::MissingConfig(m) => "Missing required configuration: "@ + m@,
        }
    }

    /// Renders this error as its one-line description.
    pub fn message(&self) -> (r: String)
        ensures
            r@ == self.spec_message(),
    {
        match self {
            ConfigError::InvalidConnectionString(m) => labeled(
                "Invalid connection string: ",
                m.as_str(),
            ),
            ConfigError::InvalidConfig(m) => labeled("Invalid configuration: ", m.as_str()),
            ConfigError::MissingConfig(m) => labeled(
                "Missing required configuration: ",
                m.as_str(),
            ),
        }
    }
}

/// Flattens an error description to the string handed to the host.
pub fn to_lua_error_string(error: &str) -> (r: String)
    ensures
        r@ == "MongoDB Error: "@ + error@,
{
    labeled("MongoDB Error: ", error)
}

} // verus!
