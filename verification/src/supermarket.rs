//! Selecting which supermarket to crawl from the command-line arguments.

use vstd::prelude::*;
use vstd::string::StringExecFns;
use crate::position::{find_position, spec_position};

verus! {

/// A supermarket whose catalog the tracker can crawl.
#[derive(Clone, Copy, Debug, PartialEq, Eq, Structural)]
pub enum Supermarket {
    Countdown,
    NewWorld,
}

/// A struct to represent failures to convert a given [`String`] into a
/// [`Supermarket`].
pub struct SupermarketConversionError(String);

impl SupermarketConversionError {
    /// The string that could not be converted.
    pub closed spec fn rejected(self) -> String {
        self.0
    }

    /// Hands back the string that could not be converted.
    pub fn into_inner(self) -> (r: String)
        ensures
            r == self.rejected(),
    {
        self.0
    }
}

impl Supermarket {
    /// Retrieves all the valid values that will be parsed with [`Supermarket::try_from`].
    pub fn get_allowed_types() -> (r: &'static [&'static str])
        ensures
            r@.len() == 2,
            r@[0]@ == "Countdown"@,
            r@[1]@ == "NewWorld"@,
    {
        &["Countdown", "NewWorld"]
    }

    /// Parses the name of a supermarket; any other string is handed back
    /// inside the error.
    pub fn try_from(value: String) -> (r: Result<Supermarket, SupermarketConversionError>)
        ensures
            value@ == "Countdown"@ ==> r == Ok::<Supermarket, SupermarketConversionError>(
                Supermarket::Countdown,
            ),
            value@ == "NewWorld"@ ==> r == Ok::<Supermarket, SupermarketConversionError>(
                Supermarket::NewWorld,
            ),
            value@ != "Countdown"@ && value@ != "NewWorld"@ ==> (r matches Err(e) && e.rejected()
                == value),
    {
        proof {
            reveal_strlit("Countdown");
            reveal_strlit("NewWorld");
            // the two names cannot both match: they differ in length
            assert("Countdown"@.len() == 9);
            assert("NewWorld"@.len() == 8);
        }
        if value == String::from_str("Countdown") {
            Ok(Supermarket::Countdown)
        } else if value == String::from_str("NewWorld") {
            Ok(Supermarket::NewWorld)
        } else {
            Err(SupermarketConversionError(value))
        }
    }
}

/// Failures to work out which supermarket was requested.
#[derive(Debug)]
pub enum SupermarketRetrievalError {
    MissingSupermarket {},
    NotPassedSupermarket {},
    ParseError { supermarket: String },
}

impl SupermarketRetrievalError {
    /// A human-readable description of the failure.
    pub fn message(&self) -> (r: String)
        ensures
            self matches SupermarketRetrievalError::ParseError { supermarket } ==> r@
                == "Unknown supermarket variant '"@ + supermarket@ + "' passed"@,
    {
        match self {
            SupermarketRetrievalError::MissingSupermarket {} => String::from_str(
                "Failed to find '--supermarket' option passed",
            ),
            SupermarketRetrievalError::NotPassedSupermarket {} => String::from_str(
                "The '--supermarket' option was specified, but no supermarket was listed after",
            ),
            SupermarketRetrievalError::ParseError { supermarket } => {
                let mut s = String::from_str("Unknown supermarket variant '");
                s.append(supermarket.as_str());
                s.append("' passed");
                s
            },
        }
    }
}

/// What the argument list asks to crawl: the value after the first
/// `--supermarket` flag decides, and each way the request can be absent or
/// malformed has its own error.
pub open spec fn spec_get_supermarket_type(args: Seq<String>) -> Result<
    Supermarket,
    SupermarketRetrievalError,
> {
    match spec_position(args, "--supermarket"@) {
        Option::None => Err(SupermarketRetrievalError::MissingSupermarket {}),
        Option::Some(p) => if p + 1 >= args.len() {
            Err(SupermarketRetrievalError::NotPassedSupermarket {})
        } else if args[p + 1]@ == "Countdown"@ {
            Ok(Supermarket::Countdown)
        } else if args[p + 1]@ == "NewWorld"@ {
            Ok(Supermarket::NewWorld)
        } else {
            Err(SupermarketRetrievalError::ParseError { supermarket: args[p + 1] })
        },
    }
}

/// Attempts to retrieve the type of supermarket the user specified with the
/// `--supermarket` option.
///
/// If the user did not provide a supermarket,
/// [`SupermarketRetrievalError::MissingSupermarket`] is returned.
///
/// If the user passed the '--supermarket' option, but did not specify a
/// supermarket, [`SupermarketRetrievalError::NotPassedSupermarket`] is
/// returned.
///
/// If the user provided an invalid supermarket,
/// [`SupermarketRetrievalError::ParseError`] is returned.
pub fn get_supermarket_type(args: &[String]) -> (r: Result<
    Supermarket,
    SupermarketRetrievalError,
>)
    ensures
        r == spec_get_supermarket_type(args@),
{
    // find the position of the supermarket option
    let flag = String::from_str("--supermarket");
    let pos = match find_position(args, &flag) {
        Some(p) => p,
        None => {
            return Err(SupermarketRetrievalError::MissingSupermarket {});
        },
    };

    // we want the next option passed
    let len = args.len();
    if pos + 1 >= len {
        return Err(SupermarketRetrievalError::NotPassedSupermarket {});
    }
    let supermarket_type = &args[pos + 1];

    match Supermarket::try_from(supermarket_type.clone()) {
        Ok(supermarket) => Ok(supermarket),
        Err(e) => Err(SupermarketRetrievalError::ParseError { supermarket: e.into_inner() }),
    }
}

} // verus!
