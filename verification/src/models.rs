//! Voice model metadata and the model registry.
//!
//! A registry maps each unique model name to its metadata: the speaker
//! table, the model file locations and the engine settings the model's
//! config suggests. Discovery — walking the model directory and parsing
//! config files — happens outside this crate; parsed models are handed in
//! one by one. Startup validation of the configured defaults and the
//! per-request speaker resolution are decided here.
//!
//! Speaker resolution is deliberately lenient: an unknown speaker name
//! falls back to the default speaker id rather than failing the request.

use vstd::prelude::*;

use crate::errors::StateError;
use crate::synth::PiperOptions;

verus! {

/// Engine settings suggested by a model's config, as IEEE-754 bit
/// patterns of the 32-bit float values.
#[derive(Debug, Clone, Copy, PartialEq, Eq)]
pub struct Inference {
    pub noise_scale: u32,
    pub length_scale: u32,
    pub noise_w: u32,
}

/// One discovered voice model: its unique name, its speaker table, where
/// its files live and its suggested engine settings.
#[derive(Debug)]
pub struct VoiceModel {
    pub name: String,
    /// Speaker name to speaker id, in discovery order.
    pub speakers: Vec<(String, i32)>,
    pub onnx_file: String,
    pub json_file: String,
    pub suggested_settings: Inference,
}

/// The id of the first speaker entry named `name`, if any.
pub open spec fn lookup_speaker(speakers: Seq<(String, i32)>, name: Seq<char>) -> Option<i32>
    decreases speakers.len(),
{
    if speakers.len() == 0 {
        None
    } else if speakers[0].0@ == name {
        Some(speakers[0].1)
    } else {
        lookup_speaker(speakers.drop_first(), name)
    }
}

/// The speaker id a request resolves to: the named speaker's id when the
/// name is known, the default id 0 when no name is given — and, by the
/// lenient policy, also when the name is unknown.
pub open spec fn resolved_speaker(speakers: Seq<(String, i32)>, speaker: Option<Seq<char>>) -> i32 {
    match speaker {
        Some(name) => match lookup_speaker(speakers, name) {
            Some(id) => id,
            None => 0,
        },
        None => 0,
    }
}

/// The views of an optional speaker name.
pub open spec fn name_view(speaker: Option<String>) -> Option<Seq<char>> {
    match speaker {
        Some(s) => Some(s@),
        None => None,
    }
}

/// IEEE-754 bit pattern of the 32-bit float value one: the length scale
/// every request is issued with.
pub const DEFAULT_LENGTH_SCALE_BITS: u32 = 0x3F80_0000;

impl VoiceModel {
    /// Looks a speaker name up in this model's table.
    pub fn speaker_id(&self, name: &String) -> (r: Option<i32>)
        ensures
            r == lookup_speaker(self.speakers@, name@),
    {
        let mut i: usize = 0;
        proof {
            assert(self.speakers@.subrange(0, self.speakers@.len() as int) =~= self.speakers@);
        }
        while i < self.speakers.len()
            invariant
                i <= self.speakers.len(),
                lookup_speaker(
                    self.speakers@.subrange(i as int, self.speakers@.len() as int),
                    name@,
                ) == lookup_speaker(self.speakers@, name@),
            decreases self.speakers.len() - i,
        {
            proof {
                assert(self.speakers@.subrange(
                    i as int,
                    self.speakers@.len() as int,
                ).drop_first() =~= self.speakers@.subrange(
                    i as int + 1,
                    self.speakers@.len() as int,
                ));
            }
            if self.speakers[i].0 == *name {
                return Some(self.speakers[i].1);
            }
            i += 1;
        }
        None
    }

    /// Resolves a request's optional speaker name to a speaker id: a known
    /// name gives its id; no name, or an unknown one, gives the default
    /// id 0. Never fails — the lenient policy is deliberate.
    pub fn resolve_speaker_id(&self, speaker: &Option<String>) -> (id: i32)
        ensures
            id == resolved_speaker(self.speakers@, name_view(*speaker)),
    {
        match speaker {
            Some(name) => match self.speaker_id(name) {
                Some(id) => id,
                None => 0,
            },
            None => 0,
        }
    }

    /// The synthesis options a request against this model is issued with:
    /// length scale one, the model's suggested noise scales, and the
    /// resolved speaker id.
    pub fn request_options(&self, speaker: &Option<String>) -> (o: PiperOptions)
        ensures
            o.length_scale == Some(DEFAULT_LENGTH_SCALE_BITS),
            o.noise_scale == Some(self.suggested_settings.noise_scale),
            o.noise_w_scale == Some(self.suggested_settings.noise_w),
            o.speaker_id == Some(resolved_speaker(self.speakers@, name_view(*speaker))),
    {
        PiperOptions {
            length_scale: Some(DEFAULT_LENGTH_SCALE_BITS),
            noise_scale: Some(self.suggested_settings.noise_scale),
            noise_w_scale: Some(self.suggested_settings.noise_w),
            speaker_id: Some(self.resolve_speaker_id(speaker)),
        }
    }
}

/// The first registered model named `name`, if any.
pub open spec fn lookup_model(models: Seq<VoiceModel>, name: Seq<char>) -> Option<VoiceModel>
    decreases models.len(),
{
    if models.len() == 0 {
        None
    } else if models[0].name@ == name {
        Some(models[0])
    } else {
        lookup_model(models.drop_first(), name)
    }
}

/// All discovered voice models, names unique.
#[derive(Debug)]
pub struct ModelRegistry {
    models: Vec<VoiceModel>,
}

impl ModelRegistry {
    /// The registered models, in registration order.
    pub closed spec fn entries(&self) -> Seq<VoiceModel> {
        self.models@
    }

    /// Registry invariant: model names are unique.
    pub open spec fn wf(&self) -> bool {
        forall|p: int, q: int|
            0 <= p < q < self.entries().len() ==> self.entries()[p].name@
                != self.entries()[q].name@
    }

    /// An empty registry.
    pub fn new() -> (r: ModelRegistry)
        ensures
            r.wf(),
            r.entries() == Seq::<VoiceModel>::empty(),
    {
        ModelRegistry { models: Vec::new() }
    }

    /// Number of registered models.
    pub fn len(&self) -> (n: usize)
        ensures
            n == self.entries().len(),
    {
        self.models.len()
    }

    /// Registers a model. A model already registered under the same name
    /// is replaced and returned, so the caller can warn about the clash.
    pub fn insert(&mut self, model: VoiceModel) -> (replaced: Option<VoiceModel>)
        requires
            old(self).wf(),
        ensures
            final(self).wf(),
            match replaced {
                Some(prev) => exists|i: int|
                    {
                        &&& 0 <= i < old(self).entries().len()
                        &&& #[trigger] old(self).entries()[i].name@ == model.name@
                        &&& prev == old(self).entries()[i]
                        &&& final(self).entries() == old(self).entries().update(i, model)
                    },
                None => {
                    &&& final(self).entries() == old(self).entries().push(model)
                    &&& forall|i: int|
                        0 <= i < old(self).entries().len() ==> old(self).entries()[i].name@
                            != model.name@
                },
            },
    {
        let mut i: usize = 0;
        while i < self.models.len()
            invariant
                old(self).wf(),
                i <= self.models.len(),
                self.models@ == old(self).models@,
                forall|j: int| 0 <= j < i ==> self.models@[j].name@ != model.name@,
            decreases self.models.len() - i,
        {
            if self.models[i].name == model.name {
                let prev = self.models.remove(i);
                self.models.insert(i, model);
                proof {
                    assert(self.models@ =~= old(self).models@.update(i as int, model));
                }
                return Some(prev);
            }
            i += 1;
        }
        self.models.push(model);
        None
    }

    /// Looks a model up by name.
    pub fn get(&self, name: &String) -> (r: Option<&VoiceModel>)
        ensures
            match r {
                Some(m) => lookup_model(self.entries(), name@) == Some(*m),
                None => lookup_model(self.entries(), name@) is None,
            },
    {
        let mut i: usize = 0;
        proof {
            assert(self.models@.subrange(0, self.models@.len() as int) =~= self.models@);
        }
        while i < self.models.len()
            invariant
                i <= self.models.len(),
                lookup_model(self.models@.subrange(i as int, self.models@.len() as int), name@)
                    == lookup_model(self.models@, name@),
            decreases self.models.len() - i,
        {
            proof {
                assert(self.models@.subrange(i as int, self.models@.len() as int).drop_first()
                    =~= self.models@.subrange(i as int + 1, self.models@.len() as int));
            }
            if self.models[i].name == *name {
                return Some(&self.models[i]);
            }
            i += 1;
        }
        None
    }

    /// The registered model names, in registration order.
    pub fn names(&self) -> (r: Vec<String>)
        ensures
            r@.len() == self.entries().len(),
            forall|i: int| 0 <= i < r@.len() ==> r@[i]@ == self.entries()[i].name@,
    {
        let mut r: Vec<String> = Vec::new();
        let mut i: usize = 0;
        while i < self.models.len()
            invariant
                i <= self.models.len(),
                r@.len() == i,
                forall|j: int| 0 <= j < i ==> r@[j]@ == self.models@[j].name@,
            decreases self.models.len() - i,
        {
            r.push(self.models[i].name.clone());
            i += 1;
        }
        r
    }

    /// Startup validation of the configured defaults: the default model
    /// must be registered; a default model with speakers needs a default
    /// speaker; a configured default speaker must be one of the model's.
    /// Exactly one error fits each way this can fail.
    pub fn validate_defaults(&self, default_model: &String, default_speaker: &Option<String>) -> (r:
        Result<(), StateError>)
        ensures
            match r {
                Ok(_) => {
                    &&& lookup_model(self.entries(), default_model@) is Some
                    &&& ({
                        let m = lookup_model(self.entries(), default_model@)->Some_0;
                        match *default_speaker {
                            Some(s) => lookup_speaker(m.speakers@, s@) is Some,
                            None => m.speakers@.len() == 0,
                        }
                    })
                },
                Err(e) => match e {
                    StateError::BadDefaultModel(n) => {
                        &&& n@ == default_model@
                        &&& lookup_model(self.entries(), default_model@) is None
                    },
                    StateError::MissingDefaultSpeaker => {
                        &&& lookup_model(self.entries(), default_model@) is Some
                        &&& default_speaker is None
                        &&& lookup_model(
                            self.entries(),
                            default_model@,
                        )->Some_0.speakers@.len() > 0
                    },
                    StateError::BadDefaultSpeaker(s) => {
                        &&& lookup_model(self.entries(), default_model@) is Some
                        &&& default_speaker is Some
                        &&& s@ == default_speaker->Some_0@
                        &&& lookup_speaker(
                            lookup_model(self.entries(), default_model@)->Some_0.speakers@,
                            s@,
                        ) is None
                    },
                    _ => false,
                },
            },
    {
        match self.get(default_model) {
            Some(model) => match default_speaker {
                Some(speaker) => match model.speaker_id(speaker) {
                    Some(_) => Ok(()),
                    None => Err(StateError::BadDefaultSpeaker(speaker.clone())),
                },
                None => {
                    if model.speakers.len() == 0 {
                        Ok(())
                    } else {
                        Err(StateError::MissingDefaultSpeaker)
                    }
                },
            },
            None => Err(StateError::BadDefaultModel(default_model.clone())),
        }
    }
}

} // verus!
