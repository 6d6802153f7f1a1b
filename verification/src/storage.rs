//! Reaching the relational store.

use vstd::prelude::*;
use crate::error::StorageError;

verus! {

/// `mysql::Opts`: the options of a connection. Nothing is known here of
/// what they hold.
#[verifier::external_type_specification]
#[verifier::external_body]
pub struct ExOpts(mysql::Opts);

/// `mysql::UrlError`: why a connection string was refused. Nothing is known
/// here of what it holds.
#[verifier::external_type_specification]
#[verifier::external_body]
pub struct ExUrlError(mysql::UrlError);

/// Whether `mysql::Opts::from_url`, as it is built into this library,
/// accepts `url` as a connection string.
pub uninterp spec fn url_is_accepted(url: Seq<char>) -> bool;

/// `mysql::Opts::from_url`: reads connection options out of a connection
/// string, or says why it cannot. That it accepts the strings which it
/// accepts is all that is claimed: nothing is said of which those are, nor
/// of the options that it reads.
#[verifier::external_body]
fn parse_url(url: &str) -> (parsed: Result<mysql::Opts, mysql::UrlError>)
    ensures
        parsed is Ok <==> url_is_accepted(url@),
{
    mysql::Opts::from_url(url)
}

/// What a parsed connection string means for a connection attempt: options
/// to connect with, or the failure to report.
pub fn connection_options(parsed: Result<mysql::Opts, mysql::UrlError>) -> (options: Result<
    mysql::Opts,
    StorageError,
>)
    ensures
        match parsed {
            Ok(opts) => options == Ok::<mysql::Opts, StorageError>(opts),
            Err(_) => options == Err::<mysql::Opts, StorageError>(StorageError::ConnectionFailed),
        },
{
    match parsed {
        Ok(opts) => Ok(opts),
        Err(_) => Err(StorageError::ConnectionFailed),
    }
}

/// Prepares a connection to the store that `url` names: the options to
/// open it with, for every connection string that is accepted. A string
/// that is not accepted cannot be connected to, and fails as an unreachable
/// store does. Opening the connection is left to the caller.
pub fn connect(url: &str) -> (options: Result<mysql::Opts, StorageError>)
    ensures
        options is Ok <==> url_is_accepted(url@),
        options is Err ==> options == Err::<mysql::Opts, StorageError>(
            StorageError::ConnectionFailed,
        ),
{
    connection_options(parse_url(url))
}

} // verus!
