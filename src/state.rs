//! Shared publishing state and the decisions of the commands that drive it:
//! discovery, start, stop and frame publishing.
use vstd::prelude::*;
use vstd::utf8::encode_utf8;
use crate::frame::{decode, decode_result, frame_matches, DecodeError, DecodedFrame};
use crate::session::{after_open, SessionView, StreamSession};

verus! {

/// Mathematical view of a source record.
pub struct SourceView {
    pub name: Seq<char>,
    pub address: Seq<char>,
}

/// A video source found on the network: a display name and an address,
/// empty where the source gave none.
pub struct NdiSource {
    name: String,
    url_address: String,
}

impl View for NdiSource {
    type V = SourceView;

    closed spec fn view(&self) -> SourceView {
        SourceView { name: self.name@, address: self.url_address@ }
    }
}

/// The address a discovered source is listed with.
pub open spec fn listed_address(address: Option<String>) -> Seq<char> {
    match address {
        Some(a) => a@,
        None => Seq::empty(),
    }
}

impl NdiSource {
    /// A record of a discovered source; a missing address is listed as empty.
    pub fn new(name: String, address: Option<String>) -> (r: NdiSource)
        ensures
            r@.name == name@,
            r@.address == listed_address(address),
    {
        let url_address = match address {
            Some(a) => a,
            None => String::new(),
        };
        NdiSource { name, url_address }
    }

    pub fn name(&self) -> (r: &str)
        ensures
            r@ == self@.name,
    {
        self.name.as_str()
    }

    pub fn url_address(&self) -> (r: &str)
        ensures
            r@ == self@.address,
    {
        self.url_address.as_str()
    }

    pub fn duplicate(&self) -> (r: NdiSource)
        ensures
            r@ == self@,
    {
        NdiSource { name: self.name.clone(), url_address: self.url_address.clone() }
    }
}

/// A source as the discovery service reports it.
pub struct FoundSource {
    pub name: String,
    pub address: Option<String>,
}

pub open spec fn found_view(f: FoundSource) -> SourceView {
    SourceView { name: f.name@, address: listed_address(f.address) }
}

/// Why discovery gave no list.
#[derive(PartialEq, Eq, Debug)]
pub enum DiscoveryError {
    /// The transport could not be initialised; its message.
    Init(String),
    /// The timed search failed; its message.
    Query(String),
}

/// Why a stream could not be started.
#[derive(PartialEq, Eq, Debug)]
pub enum SessionError {
    /// The name given was empty.
    EmptyName,
    /// The transport could not build the stream handle; its message.
    Create(String),
}

/// Mathematical view of the publishing state.
pub struct PublishView {
    pub sources: Seq<SourceView>,
    pub active: Option<Seq<char>>,
    pub enabled: bool,
}

/// The flag and the name agree: a non-empty name is recorded exactly while
/// publishing is enabled.
pub open spec fn consistent(v: PublishView) -> bool {
    &&& v.enabled <==> v.active is Some
    &&& v.active matches Some(n) ==> n.len() > 0
}

pub open spec fn after_discovery(v: PublishView, found: Seq<SourceView>) -> PublishView {
    PublishView { sources: found, ..v }
}

pub open spec fn after_start(v: PublishView, name: Seq<char>) -> PublishView {
    PublishView { active: Some(name), enabled: true, ..v }
}

pub open spec fn after_stop(v: PublishView) -> PublishView {
    PublishView { active: None, enabled: false, ..v }
}

/// Whether a frame offered in state `v` is taken for processing.
pub open spec fn accepts_frames(v: PublishView) -> bool {
    v.enabled
}

/// The state that the commands share: the last list of sources, the name of
/// the stream being published, and whether publishing is enabled.
pub struct NdiState {
    sources: Vec<NdiSource>,
    active_source: Option<String>,
    is_enabled: bool,
}

impl View for NdiState {
    type V = PublishView;

    closed spec fn view(&self) -> PublishView {
        PublishView {
            sources: self.sources@.map_values(|s: NdiSource| s@),
            active: match self.active_source {
                Some(n) => Some(n@),
                None => None,
            },
            enabled: self.is_enabled,
        }
    }
}

impl NdiState {
    #[verifier::type_invariant]
    spec fn well_formed(self) -> bool {
        consistent(self@)
    }

    /// No sources, nothing published.
    pub fn new() -> (r: NdiState)
        ensures
            r@.sources.len() == 0,
            r@.active is None,
            !r@.enabled,
    {
        NdiState { sources: Vec::new(), active_source: None, is_enabled: false }
    }

    pub fn is_enabled(&self) -> (r: bool)
        ensures
            r == self@.enabled,
            consistent(self@),
    {
        proof {
            use_type_invariant(self);
        }
        self.is_enabled
    }

    /// The name of the stream being published.
    pub fn active_source(&self) -> (r: Option<&str>)
        ensures
            r is Some <==> self@.active is Some,
            r matches Some(n) ==> n@ == self@.active->Some_0,
            consistent(self@),
    {
        proof {
            use_type_invariant(self);
        }
        match &self.active_source {
            Some(n) => Some(n.as_str()),
            None => None,
        }
    }

    /// The sources found by the last discovery.
    pub fn sources(&self) -> (r: &[NdiSource])
        ensures
            r@.map_values(|s: NdiSource| s@) == self@.sources,
    {
        self.sources.as_slice()
    }
}

/// Records the outcome of a discovery: on success the list of sources is
/// replaced by what was found, in order, and returned; on failure the state
/// is left as it was and the error returned.
pub fn find_ndi_sources(state: &mut NdiState, found: Result<Vec<FoundSource>, DiscoveryError>) -> (r: Result<Vec<NdiSource>, DiscoveryError>)
    ensures
        match found {
            Ok(list) => r matches Ok(out) && out@.map_values(|s: NdiSource| s@) == list@.map_values(|f: FoundSource| found_view(f))
                && final(state)@ == after_discovery(old(state)@, list@.map_values(|f: FoundSource| found_view(f))),
            Err(e) => r == Err::<Vec<NdiSource>, DiscoveryError>(e) && final(state)@ == old(state)@,
        },
{
    match found {
        Err(e) => Err(e),
        Ok(list) => {
            let mut kept: Vec<NdiSource> = Vec::new();
            let mut out: Vec<NdiSource> = Vec::new();
            let mut i: usize = 0;
            while i < list.len()
                invariant
                    i <= list@.len(),
                    kept@.len() == i,
                    out@.len() == i,
                    forall|j: int| 0 <= j < i ==> kept@[j]@ == found_view(list@[j]),
                    forall|j: int| 0 <= j < i ==> out@[j]@ == found_view(list@[j]),
                decreases list@.len() - i,
            {
                let f = &list[i];
                let address = match &f.address {
                    Some(a) => Some(a.clone()),
                    None => None,
                };
                let source = NdiSource::new(f.name.clone(), address);
                out.push(source.duplicate());
                kept.push(source);
                i = i + 1;
            }
            let ghost target = list@.map_values(|f: FoundSource| found_view(f));
            assert(kept@.map_values(|s: NdiSource| s@) =~= target);
            assert(out@.map_values(|s: NdiSource| s@) =~= target);
            proof {
                use_type_invariant(&*state);
            }
            state.sources = kept;
            Ok(out)
        },
    }
}

/// Records the start of a stream. The session is closed first, so at most
/// one handle is held; `sender` is the handle the transport built for
/// `source_name`, or its error. On success the session holds that handle and
/// publishing is enabled under `source_name`; on failure the session is
/// closed and publishing disabled.
pub fn start_ndi_output<H>(
    state: &mut NdiState,
    session: &mut StreamSession<H>,
    source_name: String,
    sender: Result<H, String>,
) -> (r: Result<bool, SessionError>)
    ensures
        source_name@.len() == 0 ==> r == Err::<bool, SessionError>(SessionError::EmptyName),
        source_name@.len() > 0 ==> match sender {
            Ok(h) => r == Ok::<bool, SessionError>(true),
            Err(m) => r == Err::<bool, SessionError>(SessionError::Create(m)),
        },
        r is Ok ==> final(state)@ == after_start(old(state)@, source_name@)
            && final(session)@ == after_open(old(session)@, source_name@, sender->Ok_0),
        r is Err ==> final(state)@ == after_stop(old(state)@) && final(session)@ is None,
{
    session.close_session();
    if source_name.as_str().is_empty() {
        stop_state(state);
        return Err(SessionError::EmptyName);
    }
    match sender {
        Err(m) => {
            stop_state(state);
            Err(SessionError::Create(m))
        },
        Ok(h) => {
            let name = source_name.clone();
            session.open_session(source_name, h);
            record_start(state, name);
            Ok(true)
        },
    }
}

fn take_sources(state: &mut NdiState) -> (r: Vec<NdiSource>)
    ensures
        r@.map_values(|s: NdiSource| s@) == old(state)@.sources,
        final(state)@ == (PublishView { sources: Seq::empty(), ..old(state)@ }),
{
    proof {
        use_type_invariant(&*state);
    }
    let mut r: Vec<NdiSource> = Vec::new();
    std::mem::swap(&mut r, &mut state.sources);
    assert(state@.sources =~= Seq::<SourceView>::empty());
    r
}

fn record_start(state: &mut NdiState, name: String)
    requires
        name@.len() > 0,
    ensures
        final(state)@ == after_start(old(state)@, name@),
{
    let sources = take_sources(state);
    *state = NdiState { sources, active_source: Some(name), is_enabled: true };
}

fn stop_state(state: &mut NdiState)
    ensures
        final(state)@ == after_stop(old(state)@),
{
    let sources = take_sources(state);
    *state = NdiState { sources, active_source: None, is_enabled: false };
}

/// Stops publishing: the handle is released and the state disabled.
/// Stopping twice is harmless.
pub fn stop_ndi_output<H>(state: &mut NdiState, session: &mut StreamSession<H>) -> (r: bool)
    ensures
        r,
        final(state)@ == after_stop(old(state)@),
        final(session)@ is None,
{
    session.close_session();
    stop_state(state);
    true
}

/// A frame accepted for processing, not yet decoded nor delivered.
pub struct FrameJob {
    payload: String,
}

impl View for FrameJob {
    type V = Seq<char>;

    closed spec fn view(&self) -> Seq<char> {
        self.payload@
    }
}

impl FrameJob {
    /// Decodes the frame, away from the caller that offered it.
    pub fn run(&self) -> (r: Result<DecodedFrame, DecodeError>)
        ensures
            frame_matches(r, decode_result(encode_utf8(self@))),
    {
        decode(self.payload.as_str())
    }
}

/// Offers a frame for publishing. While publishing is disabled it is refused
/// at once and no work is made; else it comes back as a job to run off the
/// caller's thread, and the caller is told `true`: accepted, not delivered.
pub fn send_frame_to_ndi(state: &NdiState, frame_data: String) -> (r: Option<FrameJob>)
    ensures
        r is Some <==> accepts_frames(state@),
        r matches Some(job) ==> job@ == frame_data@,
{
    if state.is_enabled() {
        Some(FrameJob { payload: frame_data })
    } else {
        None
    }
}

/// Once stopped, frames are refused, whatever came before.
pub proof fn lemma_stopped_refuses_frames(v: PublishView)
    ensures
        !accepts_frames(after_stop(v)),
        consistent(after_stop(v)),
{
}

/// Once started under a non-empty name, frames are accepted, and the
/// session holds the handle built for that name.
pub proof fn lemma_started_accepts_frames<H>(v: PublishView, s: SessionView<H>, name: Seq<char>, handle: H)
    requires
        name.len() > 0,
    ensures
        accepts_frames(after_start(v, name)),
        after_start(v, name).active == Some(name),
        after_open(s, name, handle) == Some((name, handle)),
{
}

/// Every command keeps the flag and the name in agreement; offering a frame
/// changes no state at all.
pub proof fn lemma_commands_keep_consistency(v: PublishView, name: Seq<char>, found: Seq<SourceView>)
    requires
        consistent(v),
    ensures
        consistent(after_discovery(v, found)),
        consistent(after_stop(v)),
        name.len() > 0 ==> consistent(after_start(v, name)),
{
}

} // verus!
