//! The Celestia-facing client: a builder that collects connection settings
//! and the signer reference, the client built around a resolved signer
//! identity, and the data types of the signing-only mode.
//!
//! In signing-only mode the header, blob and state operations report
//! themselves unavailable; a deployment that needs them composes this client
//! with a chain RPC transport outside this crate.

use vstd::prelude::*;
use vstd::string::*;

use crate::error::ClientError;
use crate::signer::POPSignerSigner;
use crate::signer::POPSignerSignerConfig;

verus! {

/// View equality of two optional strings.
pub open spec fn opt_string_like(a: Option<String>, b: Option<String>) -> bool {
    match (a, b) {
        (Some(x), Some(y)) => x@ == y@,
        (None, None) => true,
        _ => false,
    }
}

fn clone_opt_string(o: &Option<String>) -> (r: Option<String>)
    ensures
        opt_string_like(*o, r),
{
    match o {
        Some(s) => Some(s.clone()),
        None => None,
    }
}

// ---------------------------------------------------------------------------
// Builder
// ---------------------------------------------------------------------------

/// Collects the settings for a Celestia client before it is built: the
/// chain endpoints and the remote-signer credential and key reference.
#[derive(Debug)]
pub struct ClientBuilder {
    pub rpc_url: Option<String>,
    pub grpc_url: Option<String>,
    pub rpc_auth_token: Option<String>,
    pub popsigner_api_key: Option<String>,
    pub popsigner_key: Option<String>,
    pub popsigner_config: Option<POPSignerSignerConfig>,
}

/// Everything a transport needs to finish building a client: present
/// exactly when the builder held both the credential and the key reference.
#[derive(Debug)]
pub struct BuildPlan {
    pub api_key: String,
    pub key: String,
    pub config: Option<POPSignerSignerConfig>,
    pub rpc_url: Option<String>,
    pub grpc_url: Option<String>,
    pub rpc_auth_token: Option<String>,
}

impl ClientBuilder {
    /// An empty builder.
    pub fn new() -> (b: ClientBuilder)
        ensures
            b.rpc_url is None,
            b.grpc_url is None,
            b.rpc_auth_token is None,
            b.popsigner_api_key is None,
            b.popsigner_key is None,
            b.popsigner_config is None,
    {
        ClientBuilder {
            rpc_url: None,
            grpc_url: None,
            rpc_auth_token: None,
            popsigner_api_key: None,
            popsigner_key: None,
            popsigner_config: None,
        }
    }

    /// Sets the RPC endpoint.
    pub fn rpc_url(self, url: &str) -> (b: ClientBuilder)
        ensures
            b.rpc_url matches Some(u) && u@ == url@,
            b.grpc_url == self.grpc_url,
            b.rpc_auth_token == self.rpc_auth_token,
            b.popsigner_api_key == self.popsigner_api_key,
            b.popsigner_key == self.popsigner_key,
            b.popsigner_config == self.popsigner_config,
    {
        ClientBuilder { rpc_url: Some(String::from_str(url)), ..self }
    }

    /// Sets the gRPC endpoint.
    pub fn grpc_url(self, url: &str) -> (b: ClientBuilder)
        ensures
            b.grpc_url matches Some(u) && u@ == url@,
            b.rpc_url == self.rpc_url,
            b.rpc_auth_token == self.rpc_auth_token,
            b.popsigner_api_key == self.popsigner_api_key,
            b.popsigner_key == self.popsigner_key,
            b.popsigner_config == self.popsigner_config,
    {
        ClientBuilder { grpc_url: Some(String::from_str(url)), ..self }
    }

    /// Sets the RPC auth token, needed for authenticated endpoints.
    pub fn rpc_auth_token(self, token: &str) -> (b: ClientBuilder)
        ensures
            b.rpc_auth_token matches Some(t) && t@ == token@,
            b.rpc_url == self.rpc_url,
            b.grpc_url == self.grpc_url,
            b.popsigner_api_key == self.popsigner_api_key,
            b.popsigner_key == self.popsigner_key,
            b.popsigner_config == self.popsigner_config,
    {
        ClientBuilder { rpc_auth_token: Some(String::from_str(token)), ..self }
    }

    /// Chooses remote signing: the credential and the key name or
    /// identifier to sign with.
    pub fn popsigner(self, api_key: &str, key_name_or_id: &str) -> (b: ClientBuilder)
        ensures
            b.popsigner_api_key matches Some(a) && a@ == api_key@,
            b.popsigner_key matches Some(k) && k@ == key_name_or_id@,
            b.rpc_url == self.rpc_url,
            b.grpc_url == self.grpc_url,
            b.rpc_auth_token == self.rpc_auth_token,
            b.popsigner_config == self.popsigner_config,
    {
        ClientBuilder {
            popsigner_api_key: Some(String::from_str(api_key)),
            popsigner_key: Some(String::from_str(key_name_or_id)),
            ..self
        }
    }

    /// Chooses remote signing with custom connection settings.
    pub fn popsigner_with_config(
        self,
        api_key: &str,
        key_name_or_id: &str,
        config: POPSignerSignerConfig,
    ) -> (b: ClientBuilder)
        ensures
            b.popsigner_api_key matches Some(a) && a@ == api_key@,
            b.popsigner_key matches Some(k) && k@ == key_name_or_id@,
            b.popsigner_config == Some(config),
            b.rpc_url == self.rpc_url,
            b.grpc_url == self.grpc_url,
            b.rpc_auth_token == self.rpc_auth_token,
    {
        ClientBuilder {
            popsigner_api_key: Some(String::from_str(api_key)),
            popsigner_key: Some(String::from_str(key_name_or_id)),
            popsigner_config: Some(config),
            ..self
        }
    }

    /// Validates the builder: remote signing must be configured, the
    /// credential before the key.  What remains is handed to the transport
    /// as a plan.
    pub fn build_plan(self) -> (r: Result<BuildPlan, ClientError>)
        ensures
            self.popsigner_api_key is None ==> (r matches Err(e) && e matches ClientError::Config(
                m,
            ) && m@ == "POPSigner API key required. Use .popsigner()"@),
            self.popsigner_api_key is Some && self.popsigner_key is None ==> (r matches Err(e)
                && e matches ClientError::Config(m) && m@
                == "POPSigner key required. Use .popsigner()"@),
            self.popsigner_api_key matches Some(a) ==> (self.popsigner_key matches Some(k) ==> (r
                matches Ok(p) && {
                &&& p.api_key == a
                &&& p.key == k
                &&& p.config == self.popsigner_config
                &&& p.rpc_url == self.rpc_url
                &&& p.grpc_url == self.grpc_url
                &&& p.rpc_auth_token == self.rpc_auth_token
            })),
    {
        let api_key = match self.popsigner_api_key {
            Some(a) => a,
            None => {
                return Err(
                    ClientError::Config(
                        String::from_str("POPSigner API key required. Use .popsigner()"),
                    ),
                );
            },
        };
        let key = match self.popsigner_key {
            Some(k) => k,
            None => {
                return Err(
                    ClientError::Config(String::from_str("POPSigner key required. Use .popsigner()")),
                );
            },
        };
        Ok(
            BuildPlan {
                api_key,
                key,
                config: self.popsigner_config,
                rpc_url: self.rpc_url,
                grpc_url: self.grpc_url,
                rpc_auth_token: self.rpc_auth_token,
            },
        )
    }
}

impl Default for ClientBuilder {
    /// Same as [`ClientBuilder::new`].
    fn default() -> (b: ClientBuilder)
        ensures
            b.rpc_url is None,
            b.grpc_url is None,
            b.rpc_auth_token is None,
            b.popsigner_api_key is None,
            b.popsigner_key is None,
            b.popsigner_config is None,
    {
        ClientBuilder::new()
    }
}

// ---------------------------------------------------------------------------
// Client
// ---------------------------------------------------------------------------

/// A Celestia client whose signing identity lives with a remote custodian.
#[derive(Debug)]
pub struct Client {
    pub rpc_url: Option<String>,
    pub grpc_url: Option<String>,
    pub signer: POPSignerSigner,
}

impl Client {
    /// Starts a builder.
    pub fn builder() -> (b: ClientBuilder)
        ensures
            b.rpc_url is None,
            b.grpc_url is None,
            b.rpc_auth_token is None,
            b.popsigner_api_key is None,
            b.popsigner_key is None,
            b.popsigner_config is None,
    {
        ClientBuilder::new()
    }

    /// The signer's derived address.
    pub fn address(&self) -> (r: Result<String, ClientError>)
        ensures
            r matches Ok(a) && a@ == self.signer.celestia_address@,
    {
        Ok(String::from_str(self.signer.address()))
    }

    /// The signer's compressed public key.
    pub fn public_key(&self) -> (r: &[u8])
        ensures
            r@ == self.signer.public_key@,
    {
        self.signer.public_key()
    }

    /// The signer's public key as lowercase hex.
    pub fn public_key_hex(&self) -> (r: String)
        ensures
            r@ == crate::encoding::spec_hex_encode(self.signer.public_key@),
    {
        self.signer.public_key_hex()
    }

    /// The underlying signer.
    pub fn signer(&self) -> (r: &POPSignerSigner)
        ensures
            r == self.signer,
    {
        &self.signer
    }

    /// The RPC endpoint, when one was configured.
    pub fn rpc_url(&self) -> (r: Option<&str>)
        ensures
            self.rpc_url matches Some(u) ==> (r matches Some(v) && v@ == u@),
            self.rpc_url is None ==> r is None,
    {
        match &self.rpc_url {
            Some(u) => Some(u.as_str()),
            None => None,
        }
    }

    /// The gRPC endpoint, when one was configured.
    pub fn grpc_url(&self) -> (r: Option<&str>)
        ensures
            self.grpc_url matches Some(u) ==> (r matches Some(v) && v@ == u@),
            self.grpc_url is None ==> r is None,
    {
        match &self.grpc_url {
            Some(u) => Some(u.as_str()),
            None => None,
        }
    }

    /// The header operations of this client.
    pub fn header(&self) -> (h: HeaderClient)
        ensures
            opt_string_like(self.rpc_url, h.rpc_url),
    {
        HeaderClient { rpc_url: clone_opt_string(&self.rpc_url) }
    }

    /// The blob operations of this client.
    pub fn blob(&self) -> (b: BlobClient)
        ensures
            opt_string_like(self.rpc_url, b.rpc_url),
            opt_string_like(self.grpc_url, b.grpc_url),
    {
        BlobClient {
            rpc_url: clone_opt_string(&self.rpc_url),
            grpc_url: clone_opt_string(&self.grpc_url),
        }
    }

    /// The state operations of this client.
    pub fn state(&self) -> (s: StateClient)
        ensures
            opt_string_like(self.rpc_url, s.rpc_url),
            opt_string_like(self.grpc_url, s.grpc_url),
    {
        StateClient {
            rpc_url: clone_opt_string(&self.rpc_url),
            grpc_url: clone_opt_string(&self.grpc_url),
        }
    }
}

// ---------------------------------------------------------------------------
// Chain operations (signing-only mode)
// ---------------------------------------------------------------------------

/// Header operations.  In signing-only mode they are unavailable.
#[derive(Debug)]
pub struct HeaderClient {
    pub rpc_url: Option<String>,
}

impl HeaderClient {
    /// The latest header.  Unavailable in signing-only mode.
    pub fn head(&self) -> (r: Result<Header, ClientError>)
        ensures
            r matches Err(e) && e matches ClientError::NotImplemented(m) && m@
                == "header operations need the full chain client"@,
    {
        Err(
            ClientError::NotImplemented(
                String::from_str("header operations need the full chain client"),
            ),
        )
    }

    /// The header at a height.  Unavailable in signing-only mode.
    pub fn get_by_height(&self, _height: u64) -> (r: Result<Header, ClientError>)
        ensures
            r matches Err(e) && e matches ClientError::NotImplemented(m) && m@
                == "header operations need the full chain client"@,
    {
        Err(
            ClientError::NotImplemented(
                String::from_str("header operations need the full chain client"),
            ),
        )
    }
}

/// Blob operations.  In signing-only mode they are unavailable.
#[derive(Debug)]
pub struct BlobClient {
    pub rpc_url: Option<String>,
    pub grpc_url: Option<String>,
}

impl BlobClient {
    /// Submits blobs.  Unavailable in signing-only mode.
    pub fn submit(&self, _blobs: &[Blob], _config: TxConfig) -> (r: Result<TxInfo, ClientError>)
        ensures
            r matches Err(e) && e matches ClientError::NotImplemented(m) && m@
                == "blob operations need the full chain client"@,
    {
        Err(
            ClientError::NotImplemented(
                String::from_str("blob operations need the full chain client"),
            ),
        )
    }

    /// Fetches one blob.  Unavailable in signing-only mode.
    pub fn get(&self, _height: u64, _namespace: Namespace, _commitment: Commitment) -> (r: Result<
        Blob,
        ClientError,
    >)
        ensures
            r matches Err(e) && e matches ClientError::NotImplemented(m) && m@
                == "blob operations need the full chain client"@,
    {
        Err(
            ClientError::NotImplemented(
                String::from_str("blob operations need the full chain client"),
            ),
        )
    }
}

/// State operations.  In signing-only mode they are unavailable.
#[derive(Debug)]
pub struct StateClient {
    pub rpc_url: Option<String>,
    pub grpc_url: Option<String>,
}

impl StateClient {
    /// Transfers tokens.  Unavailable in signing-only mode.
    pub fn transfer(&self, _to: &str, _amount: u64, _config: TxConfig) -> (r: Result<
        TxInfo,
        ClientError,
    >)
        ensures
            r matches Err(e) && e matches ClientError::NotImplemented(m) && m@
                == "state operations need the full chain client"@,
    {
        Err(
            ClientError::NotImplemented(
                String::from_str("state operations need the full chain client"),
            ),
        )
    }

    /// Reads a balance.  Unavailable in signing-only mode.
    pub fn balance(&self, _address: Option<&str>) -> (r: Result<u64, ClientError>)
        ensures
            r matches Err(e) && e matches ClientError::NotImplemented(m) && m@
                == "state operations need the full chain client"@,
    {
        Err(
            ClientError::NotImplemented(
                String::from_str("state operations need the full chain client"),
            ),
        )
    }
}

// ---------------------------------------------------------------------------
// Chain data types (signing-only mode)
// ---------------------------------------------------------------------------

/// A block header.
#[derive(Debug, Clone)]
pub struct Header {
    pub height: u64,
    pub hash: String,
    pub time: String,
}

/// A blob namespace: a version byte and an identifier of at most ten bytes.
#[derive(Debug, Clone)]
pub struct Namespace {
    pub version: u8,
    pub id: Vec<u8>,
}

impl Namespace {
    /// A version-0 namespace over a short identifier; longer identifiers
    /// are rejected.
    pub fn new_v0(id: &[u8]) -> (r: Result<Namespace, ClientError>)
        ensures
            id@.len() > 10 ==> (r matches Err(e) && e matches ClientError::InvalidInput(m) && m@
                == "namespace ID too long"@),
            id@.len() <= 10 ==> (r matches Ok(ns) && ns.version == 0 && ns.id@ == id@),
    {
        if id.len() > 10 {
            return Err(ClientError::InvalidInput(String::from_str("namespace ID too long")));
        }
        Ok(Namespace { version: 0, id: vstd::slice::slice_to_vec(id) })
    }
}

/// A data blob: its namespace, payload, commitment and share version.
#[derive(Debug, Clone)]
pub struct Blob {
    pub namespace: Namespace,
    pub data: Vec<u8>,
    pub commitment: Commitment,
    pub share_version: u8,
}

impl Blob {
    /// A blob over a namespace and payload, with an empty commitment until
    /// the chain computes one.
    pub fn new(namespace: Namespace, data: Vec<u8>, _signer: Option<String>, _app_version: AppVersion) -> (r: Result<Blob, ClientError>)
        ensures
            r matches Ok(b) && {
                &&& b.namespace == namespace
                &&& b.data == data
                &&& b.commitment.0@ == Seq::<u8>::empty()
                &&& b.share_version == 0
            },
    {
        Ok(Blob { namespace, data, commitment: Commitment(Vec::new()), share_version: 0 })
    }
}

/// A blob commitment.
#[derive(Debug, Clone)]
pub struct Commitment(pub Vec<u8>);

impl Default for Commitment {
    /// The empty commitment.
    fn default() -> (c: Commitment)
        ensures
            c.0@ == Seq::<u8>::empty(),
    {
        Commitment(Vec::new())
    }
}

/// The app version a blob is built for.
#[derive(Debug, Clone, Copy)]
pub enum AppVersion {
    V1,
    V2,
    V3,
    V4,
    V5,
}

/// Transaction settings.
#[derive(Debug, Clone)]
pub struct TxConfig {
    pub gas_limit: Option<u64>,
    pub fee: Option<u64>,
    pub memo: Option<String>,
}

impl Default for TxConfig {
    /// No overrides.
    fn default() -> (c: TxConfig)
        ensures
            c.gas_limit is None,
            c.fee is None,
            c.memo is None,
    {
        TxConfig { gas_limit: None, fee: None, memo: None }
    }
}

/// The outcome of a submitted transaction.
#[derive(Debug, Clone)]
pub struct TxInfo {
    pub hash: String,
    pub height: u64,
}

} // verus!
