//! The session between the kernel and an adapter: a greeting, and then one frame
//! at a time.

use vstd::prelude::*;

use crate::text::texts;

verus! {

/// The version of the adapter protocol.
pub const PROTOCOL_VERSION: u32 = 1;

/// What the kernel tells an adapter first.
#[derive(Debug)]
pub struct AdapterBootstrap {
    pub adapter_instance_id: String,
    pub expected_bundle_digest: String,
}

/// What an adapter answers the kernel first.
#[derive(Debug)]
pub struct AdapterHello {
    pub adapter_instance_id: String,
    pub adapter_id: String,
    pub adapter_version: String,
    pub bundle_digest: String,
    pub protocol_version: u32,
    pub implemented_ports: Vec<String>,
    pub capability_document: Vec<u8>,
}

/// A call of one of the adapter's ports.
#[derive(Debug)]
pub struct PortCall {
    pub call_id: String,
    pub operation: String,
    pub payload: Vec<u8>,
}

/// A frame that an adapter receives.
#[derive(Debug)]
pub enum Incoming {
    Bootstrap(AdapterBootstrap),
    Request(PortCall),
    Ping { nonce: String },
    Shutdown,
    Other,
    Empty,
}

/// What an adapter does with a frame.
#[derive(Debug)]
pub enum SessionStep {
    Serve(PortCall),
    Pong { nonce: String },
    Stop,
    Skip,
}

/// The greeting of an adapter that implements `port`, or the error where the
/// session does not begin as it must. `first` is absent where the kernel has
/// closed the session.
pub fn greet(first: Option<Incoming>, adapter_id: &str, adapter_version: &str, port: &str) -> (r: Result<
    AdapterHello,
    String,
>)
    ensures
        match first {
            None => r is Err && (r->Err_0)@ == "closed before bootstrap"@,
            Some(Incoming::Bootstrap(b)) => {
                &&& r is Ok
                &&& r->Ok_0.adapter_instance_id == b.adapter_instance_id
                &&& r->Ok_0.bundle_digest == b.expected_bundle_digest
                &&& r->Ok_0.adapter_id@ == adapter_id@
                &&& r->Ok_0.adapter_version@ == adapter_version@
                &&& r->Ok_0.protocol_version == PROTOCOL_VERSION
                &&& texts(r->Ok_0.implemented_ports@) == seq![port@]
                &&& r->Ok_0.capability_document@ == Seq::<u8>::empty()
            },
            Some(_) => r is Err && (r->Err_0)@ == "expected AdapterBootstrap"@,
        },
{
    match first {
        None => Err("closed before bootstrap".to_owned()),
        Some(Incoming::Bootstrap(b)) => {
            let mut ports: Vec<String> = Vec::new();
            ports.push(port.to_owned());
            assert(texts(ports@) =~= seq![port@]);
            Ok(
                AdapterHello {
                    adapter_instance_id: b.adapter_instance_id,
                    adapter_id: adapter_id.to_owned(),
                    adapter_version: adapter_version.to_owned(),
                    bundle_digest: b.expected_bundle_digest,
                    protocol_version: PROTOCOL_VERSION,
                    implemented_ports: ports,
                    capability_document: Vec::new(),
                },
            )
        },
        Some(_) => Err("expected AdapterBootstrap".to_owned()),
    }
}

/// What an adapter does with a frame after the greeting: it serves calls, answers
/// a ping with its nonce, stops when it is told to, and passes over the rest.
pub fn receive(frame: Incoming) -> (r: SessionStep)
    ensures
        r == (match frame {
            Incoming::Request(call) => SessionStep::Serve(call),
            Incoming::Ping { nonce } => SessionStep::Pong { nonce },
            Incoming::Shutdown => SessionStep::Stop,
            _ => SessionStep::Skip,
        }),
{
    match frame {
        Incoming::Request(call) => SessionStep::Serve(call),
        Incoming::Ping { nonce } => SessionStep::Pong { nonce },
        Incoming::Shutdown => SessionStep::Stop,
        _ => SessionStep::Skip,
    }
}

} // verus!
