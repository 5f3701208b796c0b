use vstd::prelude::*;

use std::collections::hash_map::DefaultHasher;
use std::hash::Hasher;

use crate::config::Config;
use crate::filter::{Filter, normal_text};
use crate::player::{Audio, AudioEffect};
use crate::text::{chars_of, dec_chars, push_dec, push_str_chars, push_tenths, seq_contains,
    string_of, tenths_chars, contains_chars};
use crate::util::has_japanese;
use crate::util::is_japanese;
use vstd::std_specs::hash::DefaultHasherAdditionalSpecFns;

verus! {

/// A text to speak: the script itself, the playback effects, and the voice
/// (speaker) the synthesis service is asked for.
#[derive(Debug)]
pub struct Script {
    pub script: String,
    pub effect: AudioEffect,
    pub speaker: usize,
}

/// The mathematical content of a `Script`: its characters, effects and voice.
#[verifier::ext_equal]
pub ghost struct ScriptView {
    pub script: Seq<char>,
    pub effect: AudioEffect,
    pub speaker: nat,
}

impl View for Script {
    type V = ScriptView;

    open spec fn view(&self) -> ScriptView {
        ScriptView { script: self.script@, effect: self.effect, speaker: self.speaker as nat }
    }
}

impl Script {
    pub fn new(script: &str, effect: AudioEffect, speaker: usize) -> (r: Self)
        ensures
            r.script@ == script@,
            r.effect == effect,
            r.speaker == speaker,
    {
        Script { script: String::from_str(script), effect, speaker }
    }
}

/// One unit of work for the synthesis worker.
#[derive(Debug)]
pub struct APIRequest {
    pub script: String,
    pub effect: AudioEffect,
    pub speaker: usize,
}

impl APIRequest {
    pub fn new(script: &str, effect: AudioEffect, speaker: usize) -> (r: Self)
        ensures
            r.script@ == script@,
            r.effect == effect,
            r.speaker == speaker,
    {
        APIRequest { script: String::from_str(script), effect, speaker }
    }
}

/// The hash the content-addressed cache is keyed by: what
/// `DefaultHasher::finish` yields once the UTF-8 bytes of the text have been
/// written, a function of the text alone under vstd's model of the hasher.
pub open spec fn content_hash(s: Seq<char>) -> u64 {
    DefaultHasher::spec_finish(seq![vstd::utf8::encode_utf8(s)])
}

pub fn hash64(s: &str) -> (r: u64)
    ensures
        r == content_hash(s@),
{
    let mut h = DefaultHasher::new();
    h.write(s.as_bytes());
    proof {
        assert(h@ =~= seq![vstd::utf8::encode_utf8(s@)]);
    }
    h.finish()
}

/// The cache key rendered as decimal digits.
pub fn calculate_hash(s: &str) -> (r: String)
    ensures
        r@ == dec_chars(content_hash(s@) as nat),
{
    let key = hash64(s);
    let mut out: Vec<char> = Vec::new();
    push_dec(&mut out, key);
    proof {
        assert(out@ =~= dec_chars(key as nat));
    }
    string_of(&out)
}

/// The synthesis worker's lifecycle: running, suspended after a rate-limit
/// response, or shut down for good after quota exhaustion.
#[derive(Clone, Copy, Debug, PartialEq, Eq, Structural)]
pub enum WorkerState {
    Running,
    CoolingDown,
    Terminated,
}

/// How the worker reacts to a non-success synthesis response.
#[derive(Clone, Copy, Debug, PartialEq, Eq, Structural)]
pub enum FailureAction {
    /// Rate limited: suspend for the cool-down interval and shed whatever
    /// arrived meanwhile.
    CoolDownAndShed,
    /// A status the service documents as temporary: drop this request only.
    DropTemporary,
    /// Quota exhausted: shut the worker down for the rest of the process.
    Terminate,
    /// The failure the service is known to produce at random: drop.
    DropRandomFailure,
    /// Anything else: drop.
    DropUnknown,
}

/// The reaction decided by the response's status code and, for unrecognized
/// codes, its body.
pub open spec fn failure_action_spec(status: u16, body: Seq<char>) -> FailureAction {
    if status == 429 {
        FailureAction::CoolDownAndShed
    } else if status == 403 {
        FailureAction::DropTemporary
    } else if status == 503 {
        FailureAction::DropTemporary
    } else if seq_contains(body, "notEnoughPoints"@) {
        FailureAction::Terminate
    } else if seq_contains(body, "\"errorMessage\": \"failed\""@) {
        FailureAction::DropRandomFailure
    } else {
        FailureAction::DropUnknown
    }
}

pub fn classify_failure(status: u16, body: &str) -> (r: FailureAction)
    ensures
        r == failure_action_spec(status, body@),
{
    if status == 429 {
        FailureAction::CoolDownAndShed
    } else if status == 403 {
        FailureAction::DropTemporary
    } else if status == 503 {
        FailureAction::DropTemporary
    } else {
        let cs = chars_of(body);
        let quota = chars_of("notEnoughPoints");
        if contains_chars(&cs, &quota) {
            FailureAction::Terminate
        } else {
            let failed = chars_of("\"errorMessage\": \"failed\"");
            if contains_chars(&cs, &failed) {
                FailureAction::DropRandomFailure
            } else {
                FailureAction::DropUnknown
            }
        }
    }
}

/// What the worker decides to do with a request before any network call.
pub enum SynthPlan {
    /// The worker is not running: the request is shed.
    Skip,
    /// The artifact is already cached: play it without any service call.
    PlayCached { audio: Audio },
    /// Not cached, non-Japanese route: have the alternate command synthesize
    /// into `path`.
    CallGoogle { key: u64, path: String },
    /// Not cached, main route: call the synthesis service and persist the
    /// returned bytes at `path`.
    CallService { key: u64, path: String },
}

#[derive(Clone, Copy, Debug, PartialEq, Eq, Structural)]
pub enum PlanKind {
    Skip,
    PlayCached,
    CallGoogle,
    CallService,
}

/// What the worker observed after carrying a plan out.
pub enum SynthEvent {
    /// The service answered with success; `empty` says whether the body was
    /// empty (an empty body is an error and the request is dropped).
    Delivered { empty: bool },
    /// The service answered with a failure already classified by
    /// `classify_failure`.
    Failed { action: FailureAction },
}

/// The serialized synthesis worker: its lifecycle state, the set of cache
/// keys whose artifacts have been persisted, and the settings the cache key
/// and path depend on.
pub struct SynthWorker {
    pub state: WorkerState,
    pub cache: Vec<u64>,
    pub output_dir: String,
    pub speed_x10: u64,
}

/// The cache key of a request: the non-Japanese route hashes the text alone,
/// the main route hashes speaker, speed and text joined by underscores.
pub open spec fn plan_key(w: SynthWorker, req: APIRequest) -> u64 {
    if req.effect.pitch_for_english {
        content_hash(req.script@)
    } else {
        content_hash(
            dec_chars(req.speaker as nat) + seq!['_'] + tenths_chars(w.speed_x10 as nat)
                + seq!['_'] + req.script@,
        )
    }
}

/// The artifact path of a request: the key in decimal under the output
/// directory, with the route's container suffix.
pub open spec fn plan_path(w: SynthWorker, req: APIRequest) -> Seq<char> {
    w.output_dir@ + seq!['/'] + dec_chars(plan_key(w, req) as nat) + (
    if req.effect.pitch_for_english {
        ".mp3"@
    } else {
        ".wav"@
    })
}

/// The decision `plan` takes: shed unless running, play from the cache when
/// the key is present, otherwise call the route's synthesizer.
pub open spec fn plan_kind(w: SynthWorker, req: APIRequest) -> PlanKind {
    if w.state != WorkerState::Running {
        PlanKind::Skip
    } else if w.cache@.contains(plan_key(w, req)) {
        PlanKind::PlayCached
    } else if req.effect.pitch_for_english {
        PlanKind::CallGoogle
    } else {
        PlanKind::CallService
    }
}

/// The playback volume of a synthesized artifact, in tenths: the alternate
/// route plays doubled.
pub open spec fn plan_volume(req: APIRequest) -> u64 {
    if req.effect.pitch_for_english {
        20u64
    } else {
        10u64
    }
}

#[verifier::loop_isolation(false)]
fn cache_contains(cache: &Vec<u64>, key: u64) -> (r: bool)
    ensures
        r == cache@.contains(key),
{
    let mut i: usize = 0;
    while i < cache.len()
        invariant
            i <= cache@.len(),
            forall|k: int| 0 <= k < i ==> cache@[k] != key,
        decreases cache@.len() - i,
    {
        if cache[i] == key {
            return true;
        }
        i += 1;
    }
    false
}

impl SynthWorker {
    pub fn new(config: &Config) -> (r: Self)
        ensures
            r.state == WorkerState::Running,
            r.cache@ =~= Seq::<u64>::empty(),
            r.output_dir@ == config.voicevox.output_dir@,
            r.speed_x10 == config.voicevox.speed_x10,
    {
        SynthWorker {
            state: WorkerState::Running,
            cache: Vec::new(),
            output_dir: config.voicevox.output_dir.clone(),
            speed_x10: config.voicevox.speed_x10,
        }
    }

    fn key_of(&self, req: &APIRequest) -> (r: u64)
        ensures
            r == plan_key(*self, *req),
    {
        if req.effect.pitch_for_english {
            hash64(req.script.as_str())
        } else {
            let mut ks: Vec<char> = Vec::new();
            push_dec(&mut ks, req.speaker as u64);
            ks.push('_');
            push_tenths(&mut ks, self.speed_x10);
            ks.push('_');
            let mut text = chars_of(req.script.as_str());
            ks.append(&mut text);
            proof {
                assert(ks@ =~= dec_chars(req.speaker as nat) + seq!['_'] + tenths_chars(
                    self.speed_x10 as nat,
                ) + seq!['_'] + req.script@);
            }
            let ks_str = string_of(&ks);
            hash64(ks_str.as_str())
        }
    }

    fn path_of(&self, req: &APIRequest, key: u64) -> (r: String)
        requires
            key == plan_key(*self, *req),
        ensures
            r@ == plan_path(*self, *req),
    {
        let mut ps = chars_of(self.output_dir.as_str());
        ps.push('/');
        push_dec(&mut ps, key);
        if req.effect.pitch_for_english {
            push_str_chars(&mut ps, ".mp3");
        } else {
            push_str_chars(&mut ps, ".wav");
        }
        proof {
            assert(ps@ =~= plan_path(*self, *req));
        }
        string_of(&ps)
    }

    /// Decides a request before any outside work: shed it, serve it from the
    /// cache, or name the call to make and the path to persist at.
    pub fn plan(&self, req: &APIRequest) -> (r: SynthPlan)
        ensures
            match r {
                SynthPlan::Skip => plan_kind(*self, *req) == PlanKind::Skip,
                SynthPlan::PlayCached { audio } => plan_kind(*self, *req) == PlanKind::PlayCached
                    && audio.path@ == plan_path(*self, *req) && audio.volume_x10 == plan_volume(
                    *req,
                ) && audio.effect == req.effect,
                SynthPlan::CallGoogle { key, path } => plan_kind(*self, *req)
                    == PlanKind::CallGoogle && key == plan_key(*self, *req) && path@ == plan_path(
                    *self,
                    *req,
                ),
                SynthPlan::CallService { key, path } => plan_kind(*self, *req)
                    == PlanKind::CallService && key == plan_key(*self, *req) && path@ == plan_path(
                    *self,
                    *req,
                ),
            },
    {
        match self.state {
            WorkerState::Terminated => SynthPlan::Skip,
            WorkerState::CoolingDown => SynthPlan::Skip,
            WorkerState::Running => {
                let key = self.key_of(req);
                let path = self.path_of(req, key);
                if cache_contains(&self.cache, key) {
                    let volume = if req.effect.pitch_for_english {
                        20u64
                    } else {
                        10u64
                    };
                    SynthPlan::PlayCached { audio: Audio { path, volume_x10: volume, effect: req.effect } }
                } else if req.effect.pitch_for_english {
                    SynthPlan::CallGoogle { key, path }
                } else {
                    SynthPlan::CallService { key, path }
                }
            },
        }
    }

    /// Applies what came back from the route's synthesizer: a terminated
    /// worker never changes again; a successful non-empty delivery records
    /// the key and hands back the artifact to play; a rate limit suspends
    /// the worker; quota exhaustion terminates it; everything else drops the
    /// one request.
    pub fn observe(&mut self, req: &APIRequest, ev: SynthEvent) -> (r: Option<Audio>)
        ensures
            final(self).output_dir@ == old(self).output_dir@,
            final(self).speed_x10 == old(self).speed_x10,
            old(self).state == WorkerState::Terminated ==> final(self).state
                == WorkerState::Terminated && final(self).cache@ == old(self).cache@ && r is None,
            old(self).state != WorkerState::Terminated ==> match ev {
                SynthEvent::Delivered { empty } => final(self).state == old(self).state && (
                if empty {
                    final(self).cache@ == old(self).cache@ && r is None
                } else {
                    final(self).cache@ == old(self).cache@.push(plan_key(*old(self), *req))
                        && match r {
                        Some(audio) => audio.path@ == plan_path(*old(self), *req)
                            && audio.volume_x10 == plan_volume(*req) && audio.effect == req.effect,
                        None => false,
                    }
                }),
                SynthEvent::Failed { action } => final(self).cache@ == old(self).cache@ && r
                    is None && final(self).state == (match action {
                    FailureAction::CoolDownAndShed => WorkerState::CoolingDown,
                    FailureAction::Terminate => WorkerState::Terminated,
                    _ => old(self).state,
                }),
            },
    {
        if let WorkerState::Terminated = self.state {
            return None;
        }
        match ev {
            SynthEvent::Delivered { empty } => {
                if empty {
                    None
                } else {
                    let key = self.key_of(req);
                    let path = self.path_of(req, key);
                    let volume = if req.effect.pitch_for_english {
                        20u64
                    } else {
                        10u64
                    };
                    self.cache.push(key);
                    Some(Audio { path, volume_x10: volume, effect: req.effect })
                }
            },
            SynthEvent::Failed { action } => {
                match action {
                    FailureAction::CoolDownAndShed => {
                        self.state = WorkerState::CoolingDown;
                    },
                    FailureAction::Terminate => {
                        self.state = WorkerState::Terminated;
                    },
                    _ => {},
                }
                None
            },
        }
    }

    /// Wakes the worker once the cool-down interval has passed.
    pub fn cooldown_over(&mut self)
        ensures
            final(self).cache@ == old(self).cache@,
            final(self).output_dir@ == old(self).output_dir@,
            final(self).speed_x10 == old(self).speed_x10,
            final(self).state == (if old(self).state == WorkerState::CoolingDown {
                WorkerState::Running
            } else {
                old(self).state
            }),
    {
        if let WorkerState::CoolingDown = self.state {
            self.state = WorkerState::Running;
        }
    }
}

/// Cache idempotence: once the artifact for a request's key has been
/// recorded, planning any request with the same key is served from the
/// cache — no further synthesizer call — and the artifact path is the very
/// path the first call persisted at.
pub proof fn lemma_cache_idempotent(w0: SynthWorker, w1: SynthWorker, req: APIRequest)
    requires
        w0.state == WorkerState::Running,
        w1.state == WorkerState::Running,
        w1.output_dir@ == w0.output_dir@,
        w1.speed_x10 == w0.speed_x10,
        w1.cache@ == w0.cache@.push(plan_key(w0, req)),
    ensures
        plan_kind(w1, req) == PlanKind::PlayCached,
        plan_path(w1, req) == plan_path(w0, req),
{
    assert(plan_key(w1, req) == plan_key(w0, req));
    assert(w1.cache@[w1.cache@.len() - 1] == plan_key(w0, req));
    assert(w1.cache@.contains(plan_key(w1, req)));
}

/// Terminal quota state: a terminated worker plans nothing but `Skip`, so no
/// request after quota exhaustion reaches the service; `observe` above also
/// states that no event leaves the terminated state.
pub proof fn lemma_quota_terminal(w: SynthWorker, req: APIRequest)
    requires
        w.state == WorkerState::Terminated,
    ensures
        plan_kind(w, req) == PlanKind::Skip,
{
}

/// The front of the synthesis queue: drops disabled, forbidden and (when
/// configured) non-Japanese requests, and routes non-Japanese texts to the
/// alternate synthesizer when that is configured instead.
pub struct VoiceVox {
    pub enabled: bool,
    pub should_skip_non_japanese: bool,
    pub should_use_google_speech_for_non_japanese: bool,
    pub filter: Option<Filter>,
}

impl VoiceVox {
    /// The forbidden words the front end checks against.
    pub open spec fn words(&self) -> Seq<Seq<char>> {
        match self.filter {
            Some(f) => f@,
            None => Seq::empty(),
        }
    }

    pub open spec fn wf(&self) -> bool {
        self.enabled ==> self.filter is Some
    }

    pub fn new(config: &Config, filter: Filter) -> (r: Self)
        ensures
            r.enabled == config.voicevox.enabled,
            r.wf(),
            config.voicevox.enabled ==> r.words() == filter@ && r.should_skip_non_japanese
                == config.voicevox.should_skip_non_japanese
                && r.should_use_google_speech_for_non_japanese
                == config.voicevox.should_use_google_speech_for_non_japanese,
            !config.voicevox.enabled ==> !r.should_skip_non_japanese
                && !r.should_use_google_speech_for_non_japanese,
    {
        if config.voicevox.enabled {
            VoiceVox {
                enabled: true,
                should_skip_non_japanese: config.voicevox.should_skip_non_japanese,
                should_use_google_speech_for_non_japanese: config
                    .voicevox
                    .should_use_google_speech_for_non_japanese,
                filter: Some(filter),
            }
        } else {
            VoiceVox {
                enabled: false,
                should_skip_non_japanese: false,
                should_use_google_speech_for_non_japanese: false,
                filter: None,
            }
        }
    }

    /// Turns a script into a request for the worker's queue, or drops it:
    /// texts of a disabled front end or holding a forbidden word are dropped; a
    /// non-Japanese text is dropped or, when the alternate synthesizer is
    /// configured, marked for it.
    pub fn say(&self, script: Script) -> (r: Option<APIRequest>)
        requires
            self.wf(),
        ensures
            match r {
                None => !self.enabled || !normal_text(self.words(), script.script@) || (
                self.should_skip_non_japanese && !has_japanese(script.script@)
                    && !self.should_use_google_speech_for_non_japanese),
                Some(req) => self.enabled && normal_text(self.words(), script.script@)
                    && req.script@ == script.script@ && req.speaker == script.speaker
                    && req.effect == (if self.should_skip_non_japanese && !has_japanese(
                    script.script@,
                ) {
                    AudioEffect { pitch_for_english: true, ..script.effect }
                } else {
                    script.effect
                }),
            },
    {
        if !self.enabled {
            return None;
        }
        let normal = match &self.filter {
            Some(f) => f.is_normal(script.script.as_str()),
            None => false,
        };
        if !normal {
            return None;
        }
        let mut effect = script.effect;
        if self.should_skip_non_japanese && !is_japanese(script.script.as_str()) {
            if self.should_use_google_speech_for_non_japanese {
                effect.pitch_for_english = true;
            } else {
                return None;
            }
        }
        Some(APIRequest { script: script.script, effect, speaker: script.speaker })
    }
}

} // verus!
