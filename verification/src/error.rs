//! The application-level error taxonomy: transport and decode failures and
//! persistence failures are fatal; identity mismatches are reported by the
//! reconciler instead and never surface here.

use vstd::prelude::*;
use vstd::string::StringExecFns;

verus! {

/// Everything that can abort a crawl run.
#[derive(Debug)]
pub enum ApplicationError {
    /// Failed to load configuration data
    Config,
    /// Failed to connect to the database
    DatabaseConnectError,
    /// Failed to initialize the database with the initial tables
    DatabaseInitializeError,
    /// Errors associated with performing HTTP requests
    HttpError,
    /// Errors associated with retrieving the categories of products.
    CategoryRetrieval,
    /// Errors associated with retrieving the products.
    ProductRetrieval,
    /// Failed to write response cache to disk
    CacheError,
    /// Failed to insert new products into the database
    NewProductsInsertionError,
    /// Failed to insert prices of products into the database
    PriceDataInsertionError,
    /// Failed to set the location to a specified store
    SetLocation,
    /// Failed to save the store to the database
    SaveStore,
}

impl ApplicationError {
    /// The description that the failure is reported with.
    pub open spec fn spec_message(self) -> Seq<char> {
        match self {
            ApplicationError::Config => "Failed to load configuration"@,
            ApplicationError::DatabaseConnectError => "Failed to connect to database"@,
            ApplicationError::DatabaseInitializeError => "Failed to initialize database"@,
            ApplicationError::HttpError => "An error occurred while performing an HTTP request"@,
            ApplicationError::CategoryRetrieval => "Failed to retrieve categories of products"@,
            ApplicationError::ProductRetrieval => "Failed to retrieve all products"@,
            ApplicationError::CacheError => "Failed to write cache"@,
            ApplicationError::NewProductsInsertionError
                => "Failed to insert new products into database"@,
            ApplicationError::PriceDataInsertionError
                => "Failed to write price feed into database"@,
            ApplicationError::SetLocation => "Failed to set location of store"@,
            ApplicationError::SaveStore => "Failed to save the store to the database"@,
        }
    }

    /// A human-readable description of the failure.
    pub fn message(&self) -> (r: String)
        ensures
            r@ == self.spec_message(),
    {
        match self {
            ApplicationError::Config => String::from_str("Failed to load configuration"),
            ApplicationError::DatabaseConnectError => String::from_str(
                "Failed to connect to database",
            ),
            ApplicationError::DatabaseInitializeError => String::from_str(
                "Failed to initialize database",
            ),
            ApplicationError::HttpError => String::from_str(
                "An error occurred while performing an HTTP request",
            ),
            ApplicationError::CategoryRetrieval => String::from_str(
                "Failed to retrieve categories of products",
            ),
            ApplicationError::ProductRetrieval => String::from_str(
                "Failed to retrieve all products",
            ),
            ApplicationError::CacheError => String::from_str("Failed to write cache"),
            ApplicationError::NewProductsInsertionError => String::from_str(
                "Failed to insert new products into database",
            ),
            ApplicationError::PriceDataInsertionError => String::from_str(
                "Failed to write price feed into database",
            ),
            ApplicationError::SetLocation => String::from_str("Failed to set location of store"),
            ApplicationError::SaveStore => String::from_str(
                "Failed to save the store to the database",
            ),
        }
    }
}

} // verus!
