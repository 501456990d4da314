//! The client through which requests are sent to the store.

use vstd::prelude::*;
use cloudflare::framework::auth::Credentials;
use cloudflare::framework::{Environment, HttpApiClient, HttpApiClientConfig};
use std::time::Duration;

verus! {

/// How long a request may take, in seconds: five minutes, so that a large
/// bulk upload is not cut off.
pub const HTTP_TIMEOUT_SECS: u64 = 300;

/// The authentication material of `cloudflare`, carried through unread.
#[verifier::external_type_specification]
#[verifier::external_body]
pub struct ExCredentials(Credentials);

/// The HTTP client of `cloudflare`, carried through unread.
#[verifier::external_type_specification]
#[verifier::external_body]
pub struct ExHttpApiClient(HttpApiClient);

/// The error of `failure`, carried through unread.
#[verifier::external_type_specification]
#[verifier::external_body]
pub struct ExFailureError(failure::Error);

/// What a client is built with.
#[derive(Clone, Copy, Debug, PartialEq, Eq, Structural)]
pub struct ClientConfig {
    pub http_timeout_secs: u64,
}

/// A client of the store together with the configuration that it was built
/// with.
pub struct ApiClient {
    pub client: HttpApiClient,
    pub config: ClientConfig,
}

/// No client could be built.
pub struct ClientError {
    pub cause: failure::Error,
}

/// The configuration of every client that the commands use.
pub fn client_config() -> (config: ClientConfig)
    ensures
        config.http_timeout_secs == HTTP_TIMEOUT_SECS,
        config.http_timeout_secs == 5 * 60,
{
    ClientConfig { http_timeout_secs: HTTP_TIMEOUT_SECS }
}

/// Calls `cloudflare::framework::HttpApiClient::new` for the production
/// API with the request timeout of the configuration, and returns the
/// client beside that configuration. Whether a client comes back depends
/// on the machine's HTTP and TLS setup; of one that does, the contract
/// says that it was built with the configuration given.
#[verifier::external_body]
fn new_http_client(credentials: Credentials, config: ClientConfig) -> (result: Result<
    ApiClient,
    failure::Error,
>)
    ensures
        result matches Ok(built) ==> built.config == config,
{
    match HttpApiClient::new(
        credentials,
        HttpApiClientConfig { http_timeout: Duration::from_secs(config.http_timeout_secs) },
        Environment::Production,
    ) {
        Ok(client) => Ok(ApiClient { client, config }),
        Err(cause) => Err(cause),
    }
}

/// Hands on the client that was built, or gives the reason why none was
/// built as an error of this library.
pub fn client_from(built: Result<ApiClient, failure::Error>) -> (result: Result<
    ApiClient,
    ClientError,
>)
    ensures
        match built {
            Ok(client) => result == Ok::<ApiClient, ClientError>(client),
            Err(cause) => result == Err::<ApiClient, ClientError>((ClientError { cause })),
        },
{
    match built {
        Ok(client) => Ok(client),
        Err(cause) => Err(ClientError { cause }),
    }
}

/// Builds a client that authenticates with the given credentials and gives
/// each request five minutes before it fails. A new client is built for
/// every command; nothing is kept between them.
///
/// Whether a client can be built is decided by the HTTP library on the
/// machine at hand. Where one is, it was built with the five-minute
/// configuration of `client_config`, which is returned beside it.
pub fn api_client(credentials: Credentials) -> (result: Result<ApiClient, ClientError>)
    ensures
        result matches Ok(built) ==> built.config.http_timeout_secs == HTTP_TIMEOUT_SECS,
        result matches Ok(built) ==> built.config.http_timeout_secs == 5 * 60,
{
    client_from(new_http_client(credentials, client_config()))
}

} // verus!
