//! The body of a prediction request: a mapping from field names to texts,
//! built from a [`GenerationRequest`] by leaving out every absent field.

use vstd::prelude::*;
use vstd::string::StringExecFns;
use crate::decimal::{decimal_string, decimal_text, decimal_value, lemma_decimal_round_trip};
use crate::model::{GenerationRequest, RequestModel};

verus! {

/// Whether some entry of `entries` has the key `key`.
pub open spec fn has_key(entries: Seq<(Seq<char>, Seq<char>)>, key: Seq<char>) -> bool {
    exists|i: int| 0 <= i < entries.len() && (#[trigger] entries[i]).0 == key
}

/// The place of an entry with the key `key`.
pub open spec fn key_index(entries: Seq<(Seq<char>, Seq<char>)>, key: Seq<char>) -> int {
    choose|i: int| 0 <= i < entries.len() && (#[trigger] entries[i]).0 == key
}

/// Whether no key occurs twice in `entries`.
pub open spec fn distinct_keys(entries: Seq<(Seq<char>, Seq<char>)>) -> bool {
    forall|i: int, j: int|
        0 <= i < entries.len() && 0 <= j < entries.len() && i != j ==> (#[trigger] entries[i]).0
            != (#[trigger] entries[j]).0
}

/// The mapping that a list of entries stands for.
pub open spec fn mapping_of(entries: Seq<(Seq<char>, Seq<char>)>) -> Map<Seq<char>, Seq<char>> {
    Map::new(|k: Seq<char>| has_key(entries, k), |k: Seq<char>| entries[key_index(entries, k)].1)
}

/// With distinct keys, each entry is what the mapping holds under its key.
pub proof fn lemma_entry_is_mapped(entries: Seq<(Seq<char>, Seq<char>)>, i: int)
    requires
        distinct_keys(entries),
        0 <= i < entries.len(),
    ensures
        mapping_of(entries).contains_key(entries[i].0),
        mapping_of(entries)[entries[i].0] == entries[i].1,
        key_index(entries, entries[i].0) == i,
{
    let k = entries[i].0;
    assert(has_key(entries, k));
    let j = key_index(entries, k);
    assert(0 <= j < entries.len() && entries[j].0 == k);
}

/// A string-keyed mapping of texts in which no key occurs twice.
#[derive(Debug, Clone, PartialEq, Eq)]
pub struct RequestPayload {
    entries: Vec<(String, String)>,
}

impl View for RequestPayload {
    type V = Map<Seq<char>, Seq<char>>;

    open spec fn view(&self) -> Map<Seq<char>, Seq<char>> {
        mapping_of(self.entries())
    }
}

impl RequestPayload {
    /// The entries, in the order in which their keys first came in.
    pub closed spec fn entries(&self) -> Seq<(Seq<char>, Seq<char>)> {
        self.entries.deep_view()
    }

    /// No key occurs twice.
    pub open spec fn wf(&self) -> bool {
        distinct_keys(self.entries())
    }

    /// The empty payload.
    pub fn new() -> (payload: RequestPayload)
        ensures
            payload.wf(),
            payload.entries() == Seq::<(Seq<char>, Seq<char>)>::empty(),
            payload@ == Map::<Seq<char>, Seq<char>>::empty(),
    {
        let payload = RequestPayload { entries: Vec::new() };
        assert(payload.entries() =~= Seq::<(Seq<char>, Seq<char>)>::empty());
        assert(payload@ =~= Map::<Seq<char>, Seq<char>>::empty());
        payload
    }

    /// The number of entries.
    pub fn len(&self) -> (n: usize)
        ensures
            n == self.entries().len(),
    {
        self.entries.len()
    }

    /// The key and the value of the entry at `index`.
    pub fn entry(&self, index: usize) -> (pair: (&String, &String))
        requires
            index < self.entries().len(),
        ensures
            (pair.0@, pair.1@) == self.entries()[index as int],
    {
        let pair = &self.entries[index];
        (&pair.0, &pair.1)
    }

    /// The value under `key`, where the payload has one.
    pub fn get(&self, key: &str) -> (value: Option<&String>)
        requires
            self.wf(),
        ensures
            match value {
                Some(v) => self@.contains_key(key@) && v@ == self@[key@],
                None => !self@.contains_key(key@),
            },
    {
        let wanted = String::from_str(key);
        let mut i: usize = 0;
        while i < self.entries.len()
            invariant
                i <= self.entries.len(),
                wanted@ == key@,
                self.wf(),
                forall|j: int| 0 <= j < i ==> (#[trigger] self.entries()[j]).0 != key@,
            decreases self.entries.len() - i,
        {
            if self.entries[i].0 == wanted {
                proof {
                    lemma_entry_is_mapped(self.entries(), i as int);
                }
                return Some(&self.entries[i].1);
            }
            i += 1;
        }
        None
    }

    /// Puts `value` under `key`, in place of an earlier value if there is one.
    pub fn insert(&mut self, key: &str, value: String)
        requires
            old(self).wf(),
        ensures
            final(self).wf(),
            final(self)@ == old(self)@.insert(key@, value@),
    {
        let name = String::from_str(key);
        let mut i: usize = 0;
        while i < self.entries.len()
            invariant
                i <= self.entries.len(),
                name@ == key@,
                *self == *old(self),
                self.wf(),
                forall|j: int| 0 <= j < i ==> (#[trigger] self.entries()[j]).0 != key@,
            decreases self.entries.len() - i,
        {
            if self.entries[i].0 == name {
                let ghost before = self.entries();
                self.entries.set(i, (name, value));
                proof {
                    let after = self.entries();
                    assert(after =~= before.update(i as int, (key@, value@)));
                    assert(before[i as int].0 == key@);
                    assert forall|j: int| 0 <= j < after.len() implies (#[trigger] after[j]).0
                        == before[j].0 by {}
                    assert(distinct_keys(after));
                    assert forall|k: Seq<char>| has_key(after, k) <==> (has_key(before, k) || k
                        == key@) by {
                        if has_key(after, k) {
                            let j = key_index(after, k);
                            assert(before[j].0 == k);
                        }
                        if has_key(before, k) {
                            let j = key_index(before, k);
                            assert(after[j].0 == k);
                        }
                        assert(after[i as int].0 == key@);
                    }
                    assert forall|k: Seq<char>| has_key(after, k) implies #[trigger] mapping_of(
                        after,
                    )[k] == old(self)@.insert(key@, value@)[k] by {
                        let j = key_index(after, k);
                        lemma_entry_is_mapped(after, j);
                        if k != key@ {
                            lemma_entry_is_mapped(before, j);
                        }
                    }
                    assert(self@ =~= old(self)@.insert(key@, value@));
                }
                return ;
            }
            i += 1;
        }
        let ghost before = self.entries();
        self.entries.push((name, value));
        proof {
            let after = self.entries();
            assert(after =~= before.push((key@, value@)));
            assert forall|j: int| 0 <= j < before.len() implies (#[trigger] after[j]).0
                == before[j].0 by {}
            assert(distinct_keys(after));
            assert forall|k: Seq<char>| has_key(after, k) <==> (has_key(before, k) || k
                == key@) by {
                if has_key(after, k) {
                    let j = key_index(after, k);
                    if j < before.len() {
                        assert(before[j].0 == k);
                    }
                }
                if has_key(before, k) {
                    let j = key_index(before, k);
                    assert(after[j].0 == k);
                }
                assert(after[before.len() as int].0 == key@);
            }
            assert forall|k: Seq<char>| has_key(after, k) implies #[trigger] mapping_of(after)[k]
                == old(self)@.insert(key@, value@)[k] by {
                let j = key_index(after, k);
                lemma_entry_is_mapped(after, j);
                if k != key@ {
                    lemma_entry_is_mapped(before, j);
                }
            }
            assert(self@ =~= old(self)@.insert(key@, value@));
        }
    }
}

/// The text of a boolean.
pub open spec fn bool_text(b: bool) -> Seq<char> {
    if b {
        "true"@
    } else {
        "false"@
    }
}

/// What the payload of the request `r` holds under the key `key`, if anything.
///
/// The two required fields stand verbatim. An optional field stands when
/// it has a value, numbers and booleans as their texts; an empty image
/// prompt counts as none.
pub open spec fn payload_field(r: RequestModel, key: Seq<char>) -> Option<Seq<char>> {
    if key == "prompt"@ {
        Some(r.prompt)
    } else if key == "aspect_ratio"@ {
        Some(r.aspect_ratio)
    } else if key == "image_prompt"@ {
        match r.image_prompt {
            Some(text) => if text.len() > 0 {
                Some(text)
            } else {
                None
            },
            None => None,
        }
    } else if key == "image_prompt_strength"@ {
        r.image_prompt_strength
    } else if key == "safety_tolerance"@ {
        match r.safety_tolerance {
            Some(n) => Some(decimal_text(n)),
            None => None,
        }
    } else if key == "seed"@ {
        match r.seed {
            Some(n) => Some(decimal_text(n)),
            None => None,
        }
    } else if key == "raw"@ {
        match r.raw {
            Some(b) => Some(bool_text(b)),
            None => None,
        }
    } else if key == "output_format"@ {
        r.output_format
    } else {
        None
    }
}

/// The payload of the request `r`.
pub open spec fn payload_of(r: RequestModel) -> Map<Seq<char>, Seq<char>> {
    Map::new(
        |key: Seq<char>| payload_field(r, key) is Some,
        |key: Seq<char>| payload_field(r, key)->0,
    )
}

/// The eight field names are eight different texts.
proof fn lemma_field_names_differ()
    ensures
        "prompt"@.len() == 6,
        "aspect_ratio"@.len() == 12,
        "aspect_ratio"@[0] == 'a',
        "image_prompt"@.len() == 12,
        "image_prompt"@[0] == 'i',
        "image_prompt_strength"@.len() == 21,
        "safety_tolerance"@.len() == 16,
        "seed"@.len() == 4,
        "raw"@.len() == 3,
        "output_format"@.len() == 13,
{
    reveal_strlit("prompt");
    reveal_strlit("aspect_ratio");
    reveal_strlit("image_prompt");
    reveal_strlit("image_prompt_strength");
    reveal_strlit("safety_tolerance");
    reveal_strlit("seed");
    reveal_strlit("raw");
    reveal_strlit("output_format");
}

fn bool_string(b: bool) -> (s: String)
    ensures
        s@ == bool_text(b),
{
    if b {
        String::from_str("true")
    } else {
        String::from_str("false")
    }
}

/// Builds the payload of `request`. Nothing can fail, and nothing but the
/// request is read.
pub fn build_payload(request: &GenerationRequest) -> (payload: RequestPayload)
    ensures
        payload.wf(),
        payload@ == payload_of(request@),
{
    proof {
        lemma_field_names_differ();
    }
    let mut payload = RequestPayload::new();
    payload.insert("prompt", request.prompt.clone());
    payload.insert("aspect_ratio", request.aspect_ratio.clone());
    if let Some(text) = &request.image_prompt {
        if !text.as_str().is_empty() {
            payload.insert("image_prompt", text.clone());
        }
    }
    if let Some(strength) = &request.image_prompt_strength {
        payload.insert("image_prompt_strength", strength.clone());
    }
    if let Some(tolerance) = request.safety_tolerance {
        payload.insert("safety_tolerance", decimal_string(tolerance));
    }
    if let Some(seed) = request.seed {
        payload.insert("seed", decimal_string(seed));
    }
    if let Some(raw) = request.raw {
        payload.insert("raw", bool_string(raw));
    }
    if let Some(format) = &request.output_format {
        payload.insert("output_format", format.clone());
    }
    assert(payload@ =~= payload_of(request@));
    payload
}

/// Whether `key` is one of the eight field names of a request.
pub open spec fn is_field_name(key: Seq<char>) -> bool {
    key == "prompt"@ || key == "aspect_ratio"@ || key == "image_prompt"@ || key
        == "image_prompt_strength"@ || key == "safety_tolerance"@ || key == "seed"@ || key == "raw"@
        || key == "output_format"@
}

/// The payload always holds the prompt and the aspect ratio, verbatim. It
/// holds the key of an optional field exactly when the field has a value
/// (for the image prompt: a value that is not empty). It holds no other key.
pub proof fn lemma_payload_keys(r: RequestModel)
    ensures
        payload_of(r).contains_key("prompt"@),
        payload_of(r)["prompt"@] == r.prompt,
        payload_of(r).contains_key("aspect_ratio"@),
        payload_of(r)["aspect_ratio"@] == r.aspect_ratio,
        payload_of(r).contains_key("image_prompt"@) <==> (r.image_prompt is Some
            && r.image_prompt->0.len() > 0),
        payload_of(r).contains_key("image_prompt_strength"@) <==> r.image_prompt_strength is Some,
        payload_of(r).contains_key("safety_tolerance"@) <==> r.safety_tolerance is Some,
        payload_of(r).contains_key("seed"@) <==> r.seed is Some,
        payload_of(r).contains_key("raw"@) <==> r.raw is Some,
        payload_of(r).contains_key("output_format"@) <==> r.output_format is Some,
        forall|key: Seq<char>| #[trigger] payload_of(r).contains_key(key) ==> is_field_name(key),
{
    lemma_field_names_differ();
}

/// An empty image prompt and an absent one give the same payload.
pub proof fn lemma_empty_image_prompt_is_absent(r: RequestModel)
    ensures
        payload_of(RequestModel { image_prompt: Some(Seq::<char>::empty()), ..r }) == payload_of(
            RequestModel { image_prompt: None, ..r },
        ),
{
    let with_empty = RequestModel { image_prompt: Some(Seq::<char>::empty()), ..r };
    let without = RequestModel { image_prompt: None, ..r };
    assert forall|key: Seq<char>| payload_field(with_empty, key) == payload_field(
        without,
        key,
    ) by {}
    assert(payload_of(with_empty) =~= payload_of(without));
}

/// The seed and the safety tolerance are in the payload whenever they have
/// a value, zero and negative values included, and reading their texts gives
/// the numbers back.
pub proof fn lemma_integers_survive(r: RequestModel)
    ensures
        r.seed matches Some(n) ==> payload_of(r).contains_key("seed"@) && decimal_value(
            payload_of(r)["seed"@],
        ) == n,
        r.safety_tolerance matches Some(n) ==> payload_of(r).contains_key("safety_tolerance"@)
            && decimal_value(payload_of(r)["safety_tolerance"@]) == n,
{
    lemma_field_names_differ();
    if let Some(n) = r.seed {
        lemma_decimal_round_trip(n);
    }
    if let Some(n) = r.safety_tolerance {
        lemma_decimal_round_trip(n);
    }
}

} // verus!
