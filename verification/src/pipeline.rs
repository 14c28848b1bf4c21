//! Orchestration of the publish/retrieve flow over IPFS + the key server.
//!
//! Single composition point for `crypto`, `ipfs`, and `key_client`. The
//! flows below decide each next step; whoever drives them performs the step
//! (an upload, an RPC) and feeds its result back as an event.

use std::time::Duration;
use vstd::prelude::*;

use crate::config::Config;
use crate::crypto::{
    self, decryptable_envelope, decryption, keystream_suffices, sealed_envelope, within_cipher_limit, CryptoError,
    SecretKey, HEADER_LEN, NONCE_LEN, TAG_LEN,
};
use crate::error::Error;
use crate::ipfs::{IpfsClient, IpfsError};
use crate::key_client::{endpoint_of, KeyClient, KeyClientError};

verus! {

/// Per-step latency breakdown for a `publish` call.
#[derive(Debug, Clone, Copy)]
pub struct PublishTimings {
    pub key_gen: Duration,
    pub encrypt: Duration,
    pub ipfs_add: Duration,
    pub key_register: Duration,
}

/// Result of a successful `publish`: the IPFS CID, the TTL the key server
/// was asked to honor, and per-step timings.
pub struct PublishOutcome {
    pub cid: String,
    pub ttl: Duration,
    pub timings: PublishTimings,
}

/// Per-step latency breakdown for a `retrieve` call.
#[derive(Debug, Clone, Copy)]
pub struct RetrieveTimings {
    pub key_fetch: Duration,
    pub ipfs_cat: Duration,
    pub decrypt: Duration,
}

/// Result of a successful `retrieve`: the recovered plaintext and per-step timings.
pub struct RetrieveOutcome {
    pub plaintext: Vec<u8>,
    pub timings: RetrieveTimings,
}

pub struct Pipeline {
    ipfs: IpfsClient,
    keys: KeyClient,
    default_ttl: Duration,
}

impl Pipeline {
    /// The TTL the pipeline was configured with.
    pub closed spec fn configured_ttl(&self) -> Duration {
        self.default_ttl
    }

    /// The base URL of the IPFS node the pipeline talks to.
    pub closed spec fn ipfs_base(&self) -> url::Url {
        self.ipfs.base_url()
    }

    pub fn new(config: Config) -> (pipeline: Self)
        ensures
            pipeline.configured_ttl() == config.default_ttl,
            pipeline.ipfs_base() == config.ipfs_url,
            pipeline.key_client().connection_endpoint() == endpoint_of(config.key_server_url),
    {
        Pipeline {
            ipfs: IpfsClient::new(config.ipfs_url),
            keys: KeyClient::new(config.key_server_url),
            default_ttl: config.default_ttl,
        }
    }

    /// TTL the binary should pass to `publish` when the operator hasn't
    /// supplied one explicitly.
    pub fn default_ttl(&self) -> (ttl: Duration)
        ensures
            ttl == self.configured_ttl(),
    {
        self.default_ttl
    }

    /// The IPFS client the pipeline talks to.
    pub closed spec fn ipfs_client(&self) -> IpfsClient {
        self.ipfs
    }

    /// The IPFS client.
    pub fn ipfs(&self) -> (ipfs: &IpfsClient)
        ensures
            *ipfs == self.ipfs_client(),
            ipfs.base_url() == self.ipfs_base(),
    {
        &self.ipfs
    }

    /// The key-server client the pipeline talks to.
    pub closed spec fn key_client(&self) -> KeyClient {
        self.keys
    }

    /// The key-server client.
    pub fn keys(&self) -> (keys: &KeyClient)
        ensures
            *keys == self.key_client(),
    {
        &self.keys
    }
}

/// What the publish flow waits for.
pub enum PublishStage {
    /// A fresh `key` is drawn; the plaintext is yet to be sealed under it.
    AwaitSeal { key: SecretKey },
    /// The envelope sealed under `key` is being uploaded to IPFS.
    AwaitUpload { key: SecretKey },
    /// The key is being registered under `cid`.
    AwaitRegister { cid: String },
    /// The flow has finished or failed.
    Finished,
}

/// The result of a step that the driver performed for the publish flow.
pub enum PublishEvent {
    Uploaded(Result<String, IpfsError>),
    Registered(Result<(), KeyClientError>),
}

/// What the publish flow asks its driver to do next.
pub enum PublishAction {
    /// Upload this envelope to IPFS.
    Upload(Vec<u8>),
    /// Register `key`, the key that sealed the upload, under `cid` for `ttl`.
    Register { cid: String, key: SecretKey, ttl: Duration },
    /// The file is published under `cid` with `ttl`.
    Finish { cid: String, ttl: Duration },
    /// The flow failed.
    Fail(Error),
}

/// Encrypts a plaintext under a fresh key, has the envelope uploaded to IPFS,
/// and has the key registered with the key server under that CID.
pub struct PublishFlow {
    stage: PublishStage,
    ttl: Duration,
}

impl PublishFlow {
    pub closed spec fn stage(&self) -> PublishStage {
        self.stage
    }

    pub closed spec fn ttl(&self) -> Duration {
        self.ttl
    }

    /// Whether the flow is waiting for the kind of event given.
    pub open spec fn awaits(&self, event: PublishEvent) -> bool {
        match event {
            PublishEvent::Uploaded(_) => self.stage() is AwaitUpload,
            PublishEvent::Registered(_) => self.stage() is AwaitRegister,
        }
    }

    /// Starts publishing for `ttl`: draws a fresh key from the OS CSPRNG,
    /// which the flow keeps to seal the plaintext and then to register.
    pub fn start(ttl: Duration) -> (flow: PublishFlow)
        ensures
            flow.ttl() == ttl,
            flow.stage() matches PublishStage::AwaitSeal { key } && key@.len() == crate::crypto::KEY_LEN,
    {
        PublishFlow { stage: PublishStage::AwaitSeal { key: SecretKey::generate() }, ttl }
    }

    /// Seals `plaintext` under the flow's key and asks for the envelope to be
    /// uploaded, keeping the key for registration; or fails with the crypto
    /// error.
    pub fn seal(self, plaintext: &[u8]) -> (r: (PublishFlow, PublishAction))
        requires
            self.stage() is AwaitSeal,
            plaintext@.len() + TAG_LEN <= isize::MAX,
            keystream_suffices(plaintext@.len()),
        ensures
            r.0.ttl() == self.ttl(),
            self.stage() matches PublishStage::AwaitSeal { key } && {
                &&& within_cipher_limit(plaintext@.len()) ==> {
                    &&& r.0.stage() matches PublishStage::AwaitUpload { key: k } && k@ == key@
                    &&& r.1 matches PublishAction::Upload(envelope) && {
                        &&& exists|nonce: Seq<u8>|
                            nonce.len() == NONCE_LEN && envelope@ == #[trigger] sealed_envelope(key@, nonce, plaintext@)
                        &&& envelope@.len() == plaintext@.len() + HEADER_LEN + TAG_LEN
                        &&& decryption(envelope@, key@) == Ok::<Seq<u8>, CryptoError>(plaintext@)
                    }
                }
                &&& !within_cipher_limit(plaintext@.len()) ==> {
                    &&& r.0.stage() is Finished
                    &&& r.1 matches PublishAction::Fail(Error::Crypto(e)) && e == CryptoError::Encrypt
                }
            },
    {
        let ttl = self.ttl;
        match self.stage {
            PublishStage::AwaitSeal { key } => {
                match crypto::encrypt(plaintext, &key) {
                    Ok(envelope) => (PublishFlow { stage: PublishStage::AwaitUpload { key }, ttl }, PublishAction::Upload(envelope)),
                    Err(e) => (PublishFlow { stage: PublishStage::Finished, ttl }, PublishAction::Fail(Error::Crypto(e))),
                }
            },
            _ => {
                proof {
                    assert(false);
                }
                (PublishFlow { stage: PublishStage::Finished, ttl }, PublishAction::Fail(Error::Crypto(CryptoError::Encrypt)))
            },
        }
    }

    /// Takes the result of the step the flow asked for and decides the next:
    /// after an upload, registration of the sealing key under the CID that
    /// IPFS returned; after registration, the outcome with that CID and the
    /// flow's TTL. Any failure ends the flow with the error of the part that
    /// failed.
    pub fn step(self, event: PublishEvent) -> (r: (PublishFlow, PublishAction))
        requires
            self.awaits(event),
        ensures
            r.0.ttl() == self.ttl(),
            match event {
                PublishEvent::Uploaded(Ok(cid)) => {
                    &&& r.0.stage() matches PublishStage::AwaitRegister { cid: c } && c@ == cid@
                    &&& self.stage() matches PublishStage::AwaitUpload { key }
                    &&& r.1 matches PublishAction::Register { cid: c, key: k, ttl }
                        && c@ == cid@ && k@ == key@ && ttl == self.ttl()
                },
                PublishEvent::Uploaded(Err(e)) => {
                    &&& r.0.stage() is Finished
                    &&& r.1 matches PublishAction::Fail(Error::Ipfs(e2)) && e2 == e
                },
                PublishEvent::Registered(Ok(_)) => {
                    &&& r.0.stage() is Finished
                    &&& self.stage() matches PublishStage::AwaitRegister { cid }
                    &&& r.1 matches PublishAction::Finish { cid: c, ttl } && c@ == cid@ && ttl == self.ttl()
                },
                PublishEvent::Registered(Err(e)) => {
                    &&& r.0.stage() is Finished
                    &&& r.1 matches PublishAction::Fail(Error::Key(e2)) && e2 == e
                },
            },
    {
        let ttl = self.ttl;
        match event {
            PublishEvent::Uploaded(Ok(cid)) => {
                match self.stage {
                    PublishStage::AwaitUpload { key } => {
                        let registered = cid.clone();
                        (
                            PublishFlow { stage: PublishStage::AwaitRegister { cid }, ttl },
                            PublishAction::Register { cid: registered, key, ttl },
                        )
                    },
                    _ => {
                        proof {
                            assert(false);
                        }
                        (PublishFlow { stage: PublishStage::Finished, ttl }, PublishAction::Fail(Error::Crypto(CryptoError::Encrypt)))
                    },
                }
            },
            PublishEvent::Uploaded(Err(e)) => {
                (PublishFlow { stage: PublishStage::Finished, ttl }, PublishAction::Fail(Error::Ipfs(e)))
            },
            PublishEvent::Registered(Ok(_)) => {
                match self.stage {
                    PublishStage::AwaitRegister { cid } => {
                        (PublishFlow { stage: PublishStage::Finished, ttl }, PublishAction::Finish { cid, ttl })
                    },
                    _ => {
                        proof {
                            assert(false);
                        }
                        (PublishFlow { stage: PublishStage::Finished, ttl }, PublishAction::Fail(Error::Crypto(CryptoError::Encrypt)))
                    },
                }
            },
            PublishEvent::Registered(Err(e)) => {
                (PublishFlow { stage: PublishStage::Finished, ttl }, PublishAction::Fail(Error::Key(e)))
            },
        }
    }
}

/// What the retrieve flow waits for.
pub enum RetrieveStage {
    /// The key is being fetched from the key server.
    AwaitKey,
    /// The envelope is being downloaded; `key` is the fetched key.
    AwaitEnvelope { key: SecretKey },
    /// The flow has finished or failed.
    Finished,
}

/// The result of a step that the driver performed for the retrieve flow.
pub enum RetrieveEvent {
    KeyFetched(Result<SecretKey, KeyClientError>),
    Downloaded(Result<Vec<u8>, IpfsError>),
}

/// What the retrieve flow asks its driver to do next.
pub enum RetrieveAction {
    /// Fetch the key stored under this CID.
    FetchKey(String),
    /// Download the envelope stored under this CID.
    Download(String),
    /// The recovered plaintext.
    Finish(Vec<u8>),
    /// The flow failed.
    Fail(Error),
}

/// Fetches the key for a CID from the key server, has the envelope
/// downloaded from IPFS, and decrypts it.
pub struct RetrieveFlow {
    stage: RetrieveStage,
    cid: String,
}

impl RetrieveFlow {
    pub closed spec fn stage(&self) -> RetrieveStage {
        self.stage
    }

    pub closed spec fn cid(&self) -> Seq<char> {
        self.cid@
    }

    /// Whether the flow is waiting for the kind of event given.
    pub open spec fn awaits(&self, event: RetrieveEvent) -> bool {
        match event {
            RetrieveEvent::KeyFetched(_) => self.stage() is AwaitKey,
            RetrieveEvent::Downloaded(_) => self.stage() is AwaitEnvelope,
        }
    }

    /// Starts retrieving the file stored under `cid`: asks for its key.
    pub fn start(cid: &str) -> (r: (RetrieveFlow, RetrieveAction))
        ensures
            r.0.cid() == cid@,
            r.0.stage() is AwaitKey,
            r.1 matches RetrieveAction::FetchKey(c) && c@ == cid@,
    {
        let cid = cid.to_string();
        let fetch = cid.clone();
        (RetrieveFlow { stage: RetrieveStage::AwaitKey, cid }, RetrieveAction::FetchKey(fetch))
    }

    /// Takes the result of the step the flow asked for and decides the next:
    /// with the key in hand, the download of the envelope under the same CID;
    /// with the envelope, its decryption under that key. Any failure ends the
    /// flow with the error of the part that failed.
    pub fn step(self, event: RetrieveEvent) -> (r: (RetrieveFlow, RetrieveAction))
        requires
            self.awaits(event),
            event matches RetrieveEvent::Downloaded(Ok(envelope)) ==> decryptable_envelope(envelope@),
        ensures
            r.0.cid() == self.cid(),
            match event {
                RetrieveEvent::KeyFetched(Ok(key)) => {
                    &&& r.0.stage() matches RetrieveStage::AwaitEnvelope { key: k } && k@ == key@
                    &&& r.1 matches RetrieveAction::Download(c) && c@ == self.cid()
                },
                RetrieveEvent::KeyFetched(Err(e)) => {
                    &&& r.0.stage() is Finished
                    &&& r.1 matches RetrieveAction::Fail(Error::Key(e2)) && e2 == e
                },
                RetrieveEvent::Downloaded(Ok(envelope)) => {
                    &&& r.0.stage() is Finished
                    &&& self.stage() matches RetrieveStage::AwaitEnvelope { key }
                    &&& match decryption(envelope@, key@) {
                        Ok(plaintext) => r.1 matches RetrieveAction::Finish(p) && p@ == plaintext,
                        Err(e) => r.1 matches RetrieveAction::Fail(Error::Crypto(e2)) && e2 == e,
                    }
                },
                RetrieveEvent::Downloaded(Err(e)) => {
                    &&& r.0.stage() is Finished
                    &&& r.1 matches RetrieveAction::Fail(Error::Ipfs(e2)) && e2 == e
                },
            },
    {
        let cid = self.cid;
        match event {
            RetrieveEvent::KeyFetched(Ok(key)) => {
                let download = cid.clone();
                (RetrieveFlow { stage: RetrieveStage::AwaitEnvelope { key }, cid }, RetrieveAction::Download(download))
            },
            RetrieveEvent::KeyFetched(Err(e)) => {
                (RetrieveFlow { stage: RetrieveStage::Finished, cid }, RetrieveAction::Fail(Error::Key(e)))
            },
            RetrieveEvent::Downloaded(Ok(envelope)) => {
                match self.stage {
                    RetrieveStage::AwaitEnvelope { key } => {
                        let action = match crypto::decrypt(envelope.as_slice(), &key) {
                            Ok(plaintext) => RetrieveAction::Finish(plaintext),
                            Err(e) => RetrieveAction::Fail(Error::Crypto(e)),
                        };
                        (RetrieveFlow { stage: RetrieveStage::Finished, cid }, action)
                    },
                    _ => {
                        proof {
                            assert(false);
                        }
                        (RetrieveFlow { stage: RetrieveStage::Finished, cid }, RetrieveAction::Fail(Error::Crypto(CryptoError::AuthFailure)))
                    },
                }
            },
            RetrieveEvent::Downloaded(Err(e)) => {
                (RetrieveFlow { stage: RetrieveStage::Finished, cid }, RetrieveAction::Fail(Error::Ipfs(e)))
            },
        }
    }
}

} // verus!
