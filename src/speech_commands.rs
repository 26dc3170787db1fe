//! The speech-commands audio dataset: its classes, the word choice that
//! groups them, the decoding of a record's WAV bytes into integer samples
//! with their full-scale value, and the container of a split's records.
use vstd::arithmetic::power2::{lemma2_to64, lemma_pow2_strictly_increases, lemma_pow2_unfold, pow2};
use vstd::prelude::*;

verus! {

/// Classes of the speech-commands dataset. Each class has a fixed index
/// (see [`SpeechCommandClass::index`]); the indices run from 0 to 36.
#[derive(Clone, Copy, Debug, PartialEq, Eq, Structural)]
pub enum SpeechCommandClass {
    // Target command words
    Yes,
    No,
    Up,
    Down,
    Left,
    Right,
    On,
    Off,
    Stop,
    Go,
    Zero,
    One,
    Two,
    Three,
    Four,
    Five,
    Six,
    Seven,
    Eight,
    Nine,

    // Non-target words, grouped into `Other` by the word choice
    Bed,
    Bird,
    Cat,
    Dog,
    Happy,
    House,
    Marvin,
    Sheila,
    Tree,
    Wow,

    // Words added in the second release, grouped into `Other`
    Backward,
    Forward,
    Follow,
    Learn,
    Visual,

    // Background noise
    Silence,

    // Any other word
    Other,
}

/// The index of a class.
pub open spec fn class_index(c: SpeechCommandClass) -> nat {
    match c {
        SpeechCommandClass::Yes => 0,
        SpeechCommandClass::No => 1,
        SpeechCommandClass::Up => 2,
        SpeechCommandClass::Down => 3,
        SpeechCommandClass::Left => 4,
        SpeechCommandClass::Right => 5,
        SpeechCommandClass::On => 6,
        SpeechCommandClass::Off => 7,
        SpeechCommandClass::Stop => 8,
        SpeechCommandClass::Go => 9,
        SpeechCommandClass::Zero => 10,
        SpeechCommandClass::One => 11,
        SpeechCommandClass::Two => 12,
        SpeechCommandClass::Three => 13,
        SpeechCommandClass::Four => 14,
        SpeechCommandClass::Five => 15,
        SpeechCommandClass::Six => 16,
        SpeechCommandClass::Seven => 17,
        SpeechCommandClass::Eight => 18,
        SpeechCommandClass::Nine => 19,
        SpeechCommandClass::Bed => 20,
        SpeechCommandClass::Bird => 21,
        SpeechCommandClass::Cat => 22,
        SpeechCommandClass::Dog => 23,
        SpeechCommandClass::Happy => 24,
        SpeechCommandClass::House => 25,
        SpeechCommandClass::Marvin => 26,
        SpeechCommandClass::Sheila => 27,
        SpeechCommandClass::Tree => 28,
        SpeechCommandClass::Wow => 29,
        SpeechCommandClass::Backward => 30,
        SpeechCommandClass::Forward => 31,
        SpeechCommandClass::Follow => 32,
        SpeechCommandClass::Learn => 33,
        SpeechCommandClass::Visual => 34,
        SpeechCommandClass::Silence => 35,
        SpeechCommandClass::Other => 36,
    }
}

/// The name of a class, as it is written.
pub open spec fn class_name(c: SpeechCommandClass) -> Seq<char> {
    match c {
        SpeechCommandClass::Yes => "Yes"@,
        SpeechCommandClass::No => "No"@,
        SpeechCommandClass::Up => "Up"@,
        SpeechCommandClass::Down => "Down"@,
        SpeechCommandClass::Left => "Left"@,
        SpeechCommandClass::Right => "Right"@,
        SpeechCommandClass::On => "On"@,
        SpeechCommandClass::Off => "Off"@,
        SpeechCommandClass::Stop => "Stop"@,
        SpeechCommandClass::Go => "Go"@,
        SpeechCommandClass::Zero => "Zero"@,
        SpeechCommandClass::One => "One"@,
        SpeechCommandClass::Two => "Two"@,
        SpeechCommandClass::Three => "Three"@,
        SpeechCommandClass::Four => "Four"@,
        SpeechCommandClass::Five => "Five"@,
        SpeechCommandClass::Six => "Six"@,
        SpeechCommandClass::Seven => "Seven"@,
        SpeechCommandClass::Eight => "Eight"@,
        SpeechCommandClass::Nine => "Nine"@,
        SpeechCommandClass::Bed => "Bed"@,
        SpeechCommandClass::Bird => "Bird"@,
        SpeechCommandClass::Cat => "Cat"@,
        SpeechCommandClass::Dog => "Dog"@,
        SpeechCommandClass::Happy => "Happy"@,
        SpeechCommandClass::House => "House"@,
        SpeechCommandClass::Marvin => "Marvin"@,
        SpeechCommandClass::Sheila => "Sheila"@,
        SpeechCommandClass::Tree => "Tree"@,
        SpeechCommandClass::Wow => "Wow"@,
        SpeechCommandClass::Backward => "Backward"@,
        SpeechCommandClass::Forward => "Forward"@,
        SpeechCommandClass::Follow => "Follow"@,
        SpeechCommandClass::Learn => "Learn"@,
        SpeechCommandClass::Visual => "Visual"@,
        SpeechCommandClass::Silence => "Silence"@,
        SpeechCommandClass::Other => "Other"@,
    }
}

/// Largest class index.
pub const MAX_CLASS_INDEX: usize = 36;

/// Index of the background-noise class.
pub const SILENCE_INDEX: usize = 35;

/// Number of target command words (ten words and ten digits), which keep
/// their own class under the word choice.
pub const NUM_TARGET_WORDS: usize = 20;

/// The class chosen for a raw label: target words keep their class,
/// background noise stays silence, every other label becomes `Other`.
pub open spec fn chosen_class_index(label: usize) -> nat {
    if label < NUM_TARGET_WORDS {
        label as nat
    } else if label == SILENCE_INDEX {
        SILENCE_INDEX as nat
    } else {
        MAX_CLASS_INDEX as nat
    }
}

impl SpeechCommandClass {
    /// The class with index `v`, if there is one.
    pub fn from_repr(v: usize) -> (r: Option<SpeechCommandClass>)
        ensures
            r.is_some() == (v <= MAX_CLASS_INDEX),
            r.is_some() ==> class_index(r.unwrap()) == v,
    {
        match v {
            0 => Some(SpeechCommandClass::Yes),
            1 => Some(SpeechCommandClass::No),
            2 => Some(SpeechCommandClass::Up),
            3 => Some(SpeechCommandClass::Down),
            4 => Some(SpeechCommandClass::Left),
            5 => Some(SpeechCommandClass::Right),
            6 => Some(SpeechCommandClass::On),
            7 => Some(SpeechCommandClass::Off),
            8 => Some(SpeechCommandClass::Stop),
            9 => Some(SpeechCommandClass::Go),
            10 => Some(SpeechCommandClass::Zero),
            11 => Some(SpeechCommandClass::One),
            12 => Some(SpeechCommandClass::Two),
            13 => Some(SpeechCommandClass::Three),
            14 => Some(SpeechCommandClass::Four),
            15 => Some(SpeechCommandClass::Five),
            16 => Some(SpeechCommandClass::Six),
            17 => Some(SpeechCommandClass::Seven),
            18 => Some(SpeechCommandClass::Eight),
            19 => Some(SpeechCommandClass::Nine),
            20 => Some(SpeechCommandClass::Bed),
            21 => Some(SpeechCommandClass::Bird),
            22 => Some(SpeechCommandClass::Cat),
            23 => Some(SpeechCommandClass::Dog),
            24 => Some(SpeechCommandClass::Happy),
            25 => Some(SpeechCommandClass::House),
            26 => Some(SpeechCommandClass::Marvin),
            27 => Some(SpeechCommandClass::Sheila),
            28 => Some(SpeechCommandClass::Tree),
            29 => Some(SpeechCommandClass::Wow),
            30 => Some(SpeechCommandClass::Backward),
            31 => Some(SpeechCommandClass::Forward),
            32 => Some(SpeechCommandClass::Follow),
            33 => Some(SpeechCommandClass::Learn),
            34 => Some(SpeechCommandClass::Visual),
            35 => Some(SpeechCommandClass::Silence),
            36 => Some(SpeechCommandClass::Other),
            _ => None,
        }
    }

    /// The index of this class.
    pub fn index(&self) -> (r: usize)
        ensures
            r as nat == class_index(*self),
            r <= MAX_CLASS_INDEX,
    {
        match self {
            SpeechCommandClass::Yes => 0,
            SpeechCommandClass::No => 1,
            SpeechCommandClass::Up => 2,
            SpeechCommandClass::Down => 3,
            SpeechCommandClass::Left => 4,
            SpeechCommandClass::Right => 5,
            SpeechCommandClass::On => 6,
            SpeechCommandClass::Off => 7,
            SpeechCommandClass::Stop => 8,
            SpeechCommandClass::Go => 9,
            SpeechCommandClass::Zero => 10,
            SpeechCommandClass::One => 11,
            SpeechCommandClass::Two => 12,
            SpeechCommandClass::Three => 13,
            SpeechCommandClass::Four => 14,
            SpeechCommandClass::Five => 15,
            SpeechCommandClass::Six => 16,
            SpeechCommandClass::Seven => 17,
            SpeechCommandClass::Eight => 18,
            SpeechCommandClass::Nine => 19,
            SpeechCommandClass::Bed => 20,
            SpeechCommandClass::Bird => 21,
            SpeechCommandClass::Cat => 22,
            SpeechCommandClass::Dog => 23,
            SpeechCommandClass::Happy => 24,
            SpeechCommandClass::House => 25,
            SpeechCommandClass::Marvin => 26,
            SpeechCommandClass::Sheila => 27,
            SpeechCommandClass::Tree => 28,
            SpeechCommandClass::Wow => 29,
            SpeechCommandClass::Backward => 30,
            SpeechCommandClass::Forward => 31,
            SpeechCommandClass::Follow => 32,
            SpeechCommandClass::Learn => 33,
            SpeechCommandClass::Visual => 34,
            SpeechCommandClass::Silence => 35,
            SpeechCommandClass::Other => 36,
        }
    }

    /// The name of this class.
    pub fn name(&self) -> (r: &'static str)
        ensures
            r@ == class_name(*self),
    {
        match self {
            SpeechCommandClass::Yes => {
                proof {
                    reveal_strlit("Yes");
                }
                "Yes"
            },
            SpeechCommandClass::No => {
                proof {
                    reveal_strlit("No");
                }
                "No"
            },
            SpeechCommandClass::Up => {
                proof {
                    reveal_strlit("Up");
                }
                "Up"
            },
            SpeechCommandClass::Down => {
                proof {
                    reveal_strlit("Down");
                }
                "Down"
            },
            SpeechCommandClass::Left => {
                proof {
                    reveal_strlit("Left");
                }
                "Left"
            },
            SpeechCommandClass::Right => {
                proof {
                    reveal_strlit("Right");
                }
                "Right"
            },
            SpeechCommandClass::On => {
                proof {
                    reveal_strlit("On");
                }
                "On"
            },
            SpeechCommandClass::Off => {
                proof {
                    reveal_strlit("Off");
                }
                "Off"
            },
            SpeechCommandClass::Stop => {
                proof {
                    reveal_strlit("Stop");
                }
                "Stop"
            },
            SpeechCommandClass::Go => {
                proof {
                    reveal_strlit("Go");
                }
                "Go"
            },
            SpeechCommandClass::Zero => {
                proof {
                    reveal_strlit("Zero");
                }
                "Zero"
            },
            SpeechCommandClass::One => {
                proof {
                    reveal_strlit("One");
                }
                "One"
            },
            SpeechCommandClass::Two => {
                proof {
                    reveal_strlit("Two");
                }
                "Two"
            },
            SpeechCommandClass::Three => {
                proof {
                    reveal_strlit("Three");
                }
                "Three"
            },
            SpeechCommandClass::Four => {
                proof {
                    reveal_strlit("Four");
                }
                "Four"
            },
            SpeechCommandClass::Five => {
                proof {
                    reveal_strlit("Five");
                }
                "Five"
            },
            SpeechCommandClass::Six => {
                proof {
                    reveal_strlit("Six");
                }
                "Six"
            },
            SpeechCommandClass::Seven => {
                proof {
                    reveal_strlit("Seven");
                }
                "Seven"
            },
            SpeechCommandClass::Eight => {
                proof {
                    reveal_strlit("Eight");
                }
                "Eight"
            },
            SpeechCommandClass::Nine => {
                proof {
                    reveal_strlit("Nine");
                }
                "Nine"
            },
            SpeechCommandClass::Bed => {
                proof {
                    reveal_strlit("Bed");
                }
                "Bed"
            },
            SpeechCommandClass::Bird => {
                proof {
                    reveal_strlit("Bird");
                }
                "Bird"
            },
            SpeechCommandClass::Cat => {
                proof {
                    reveal_strlit("Cat");
                }
                "Cat"
            },
            SpeechCommandClass::Dog => {
                proof {
                    reveal_strlit("Dog");
                }
                "Dog"
            },
            SpeechCommandClass::Happy => {
                proof {
                    reveal_strlit("Happy");
                }
                "Happy"
            },
            SpeechCommandClass::House => {
                proof {
                    reveal_strlit("House");
                }
                "House"
            },
            SpeechCommandClass::Marvin => {
                proof {
                    reveal_strlit("Marvin");
                }
                "Marvin"
            },
            SpeechCommandClass::Sheila => {
                proof {
                    reveal_strlit("Sheila");
                }
                "Sheila"
            },
            SpeechCommandClass::Tree => {
                proof {
                    reveal_strlit("Tree");
                }
                "Tree"
            },
            SpeechCommandClass::Wow => {
                proof {
                    reveal_strlit("Wow");
                }
                "Wow"
            },
            SpeechCommandClass::Backward => {
                proof {
                    reveal_strlit("Backward");
                }
                "Backward"
            },
            SpeechCommandClass::Forward => {
                proof {
                    reveal_strlit("Forward");
                }
                "Forward"
            },
            SpeechCommandClass::Follow => {
                proof {
                    reveal_strlit("Follow");
                }
                "Follow"
            },
            SpeechCommandClass::Learn => {
                proof {
                    reveal_strlit("Learn");
                }
                "Learn"
            },
            SpeechCommandClass::Visual => {
                proof {
                    reveal_strlit("Visual");
                }
                "Visual"
            },
            SpeechCommandClass::Silence => {
                proof {
                    reveal_strlit("Silence");
                }
                "Silence"
            },
            SpeechCommandClass::Other => {
                proof {
                    reveal_strlit("Other");
                }
                "Other"
            },
        }
    }

    /// The name of this class, as an owned string.
    pub fn to_string(&self) -> (r: String)
        ensures
            r@ == class_name(*self),
    {
        self.name().to_owned()
    }
}

/// A raw record of the dataset: encoded audio and its label.
#[derive(Debug)]
pub struct SpeechItemRaw {
    pub audio_bytes: Vec<u8>,
    pub label: usize,
    pub is_unknown: bool,
}

/// Maps raw labels to classes.
pub struct ConvertSamples;

impl ConvertSamples {
    /// The class of a label after the word choice: the twenty target words,
    /// silence, and `Other` for everything else.
    pub fn word_choice(label: usize) -> (r: SpeechCommandClass)
        ensures
            class_index(r) == chosen_class_index(label),
    {
        if label < NUM_TARGET_WORDS {
            Self::to_speechcommandclass(label)
        } else if label == SILENCE_INDEX {
            SpeechCommandClass::Silence
        } else {
            SpeechCommandClass::Other
        }
    }

    /// The class with index `label`.
    pub fn to_speechcommandclass(label: usize) -> (r: SpeechCommandClass)
        requires
            label <= MAX_CLASS_INDEX,
        ensures
            class_index(r) == label,
    {
        SpeechCommandClass::from_repr(label).unwrap()
    }

    /// The chosen class and the labelled class of a raw label, or `None`
    /// when the label names no class.
    pub fn labels(label: usize) -> (r: Option<(SpeechCommandClass, SpeechCommandClass)>)
        ensures
            r.is_some() == (label <= MAX_CLASS_INDEX),
            r.is_some() ==> class_index(r.unwrap().0) == chosen_class_index(label)
                && class_index(r.unwrap().1) == label,
    {
        if label <= MAX_CLASS_INDEX {
            Some((Self::word_choice(label), Self::to_speechcommandclass(label)))
        } else {
            None
        }
    }
}

/// One split of the speech-commands dataset: its name and raw records.
pub struct SpeechCommandsDataset {
    split: String,
    items: Vec<SpeechItemRaw>,
}

impl SpeechCommandsDataset {
    pub closed spec fn split_spec(&self) -> Seq<char> {
        self.split@
    }

    pub closed spec fn items_spec(&self) -> Seq<SpeechItemRaw> {
        self.items@
    }

    /// The split `split` with its records `items`.
    pub fn new(split: &str, items: Vec<SpeechItemRaw>) -> (r: SpeechCommandsDataset)
        ensures
            r.split_spec() == split@,
            r.items_spec() == items@,
    {
        SpeechCommandsDataset { split: split.to_owned(), items }
    }

    /// The train split.
    pub fn train(items: Vec<SpeechItemRaw>) -> (r: SpeechCommandsDataset)
        ensures
            r.split_spec() == "train"@,
            r.items_spec() == items@,
    {
        proof {
            reveal_strlit("train");
        }
        Self::new("train", items)
    }

    /// The test split.
    pub fn test(items: Vec<SpeechItemRaw>) -> (r: SpeechCommandsDataset)
        ensures
            r.split_spec() == "test"@,
            r.items_spec() == items@,
    {
        proof {
            reveal_strlit("test");
        }
        Self::new("test", items)
    }

    /// The validation split.
    pub fn validation(items: Vec<SpeechItemRaw>) -> (r: SpeechCommandsDataset)
        ensures
            r.split_spec() == "validation"@,
            r.items_spec() == items@,
    {
        proof {
            reveal_strlit("validation");
        }
        Self::new("validation", items)
    }

    /// Number of classes after the word choice: twenty target words,
    /// silence and other.
    pub fn num_classes() -> (r: usize)
        ensures
            r == NUM_TARGET_WORDS + 2,
    {
        NUM_TARGET_WORDS + 2
    }

    /// The name of the split.
    pub fn split(&self) -> (r: &str)
        ensures
            r@ == self.split_spec(),
    {
        self.split.as_str()
    }

    /// Number of records.
    pub fn len(&self) -> (r: usize)
        ensures
            r == self.items_spec().len(),
    {
        self.items.len()
    }

    /// The raw record at `index`, if there is one.
    pub fn get_raw(&self, index: usize) -> (r: Option<&SpeechItemRaw>)
        ensures
            r.is_some() == (index < self.items_spec().len()),
            r.is_some() ==> *r.unwrap() == self.items_spec()[index as int],
    {
        if index < self.items.len() {
            Some(&self.items[index])
        } else {
            None
        }
    }

    /// The chosen and labelled classes of the record at `index`, or `None`
    /// when there is no such record or its label names no class.
    pub fn get_labels(&self, index: usize) -> (r: Option<(SpeechCommandClass, SpeechCommandClass)>)
        ensures
            r.is_some() == (index < self.items_spec().len() && self.items_spec()[index as int].label
                <= MAX_CLASS_INDEX),
            r.is_some() ==> class_index(r.unwrap().0) == chosen_class_index(
                self.items_spec()[index as int].label,
            ) && class_index(r.unwrap().1) == self.items_spec()[index as int].label,
    {
        if index < self.items.len() {
            ConvertSamples::labels(self.items[index].label)
        } else {
            None
        }
    }
}


#[verifier::external_type_specification]
#[verifier::external_body]
pub struct ExWavError(hound::Error);

/// What a WAV reader finds in `bytes`: `None` when the header cannot be
/// parsed, else the sample rate, the bits per sample, and each sample in
/// order (`None` for one that could not be read).
pub uninterp spec fn wav_contents(bytes: Seq<u8>) -> Option<(u32, u16, Seq<Option<i32>>)>;

/// What a WAV reader found in a byte stream.
#[derive(Debug)]
pub struct WavAudio {
    pub sample_rate: u32,
    pub bits_per_sample: u16,
    pub samples: Vec<Option<i32>>,
}

/// Relies on hound::WavReader::new, WavReader::spec and
/// WavReader::into_samples: parses the header of `bytes` and reads each
/// sample as an `i32`. The outcome depends on the bytes alone.
#[verifier::external_body]
fn read_wav(bytes: &[u8]) -> (r: Result<WavAudio, hound::Error>)
    ensures
        r.is_ok() == wav_contents(bytes@).is_some(),
        r.is_ok() ==> wav_contents(bytes@) == Some(
            (r->Ok_0.sample_rate, r->Ok_0.bits_per_sample, r->Ok_0.samples@),
        ),
{
    let reader = hound::WavReader::new(bytes)?;
    let spec = reader.spec();
    let samples: Vec<Option<i32>> = reader.into_samples::<i32>().map(|s| s.ok()).collect();
    Ok(WavAudio { sample_rate: spec.sample_rate, bits_per_sample: spec.bits_per_sample, samples })
}

/// Why a record could not be turned into samples.
#[derive(Clone, Copy, Debug, PartialEq, Eq, Structural)]
pub enum SpeechError {
    /// The audio bytes are not a readable WAV stream.
    InvalidWav,
    /// Samples of this width have no full-scale value (only 1 to 32 bits do).
    UnsupportedBitsPerSample { bits: u16 },
    /// The label names no class.
    UnknownLabel { label: usize },
}

/// The samples that were read, in order, without the failed ones.
pub open spec fn kept_samples(s: Seq<Option<i32>>) -> Seq<i32>
    decreases s.len(),
{
    if s.len() == 0 {
        Seq::empty()
    } else {
        kept_samples(s.drop_last()) + match s.last() {
            Some(v) => seq![v],
            None => Seq::empty(),
        }
    }
}

/// Integer samples of a record, with the value that stands for full scale:
/// a sample `v` means `v / full_scale`, in [-1, 1].
#[derive(Debug)]
pub struct DecodedAudio {
    pub samples: Vec<i32>,
    pub sample_rate: usize,
    pub full_scale: u64,
}

/// Whether `d` is what `audio` decodes to.
pub open spec fn decodes_to(
    sample_rate: u32,
    bits: u16,
    samples: Seq<Option<i32>>,
    d: DecodedAudio,
) -> bool {
    &&& d.samples@ == kept_samples(samples)
    &&& d.sample_rate == sample_rate as usize
    &&& d.full_scale as nat == pow2((bits - 1) as nat)
}

impl DecodedAudio {
    /// Keep the samples that were read and compute the full-scale value
    /// `2^(bits - 1)`.
    pub fn from_wav(audio: &WavAudio) -> (r: Result<DecodedAudio, SpeechError>)
        ensures
            r.is_ok() == (1 <= audio.bits_per_sample <= 32),
            r.is_err() ==> r->Err_0 == (SpeechError::UnsupportedBitsPerSample {
                bits: audio.bits_per_sample,
            }),
            r.is_ok() ==> decodes_to(
                audio.sample_rate,
                audio.bits_per_sample,
                audio.samples@,
                r->Ok_0,
            ),
    {
        let bits = audio.bits_per_sample;
        if bits < 1 || bits > 32 {
            return Err(SpeechError::UnsupportedBitsPerSample { bits });
        }
        let mut full_scale: u64 = 1;
        let mut e: u16 = 0;
        proof {
            lemma2_to64();
        }
        while e < bits - 1
            invariant
                1 <= bits <= 32,
                e <= bits - 1,
                full_scale as nat == pow2(e as nat),
            decreases bits - 1 - e,
        {
            proof {
                lemma_pow2_unfold((e + 1) as nat);
                lemma2_to64();
                if e < 30 {
                    lemma_pow2_strictly_increases(e as nat, 30);
                }
            }
            full_scale = full_scale * 2;
            e = e + 1;
        }
        let mut samples: Vec<i32> = Vec::new();
        let mut i: usize = 0;
        while i < audio.samples.len()
            invariant
                i <= audio.samples@.len(),
                samples@ == kept_samples(audio.samples@.take(i as int)),
            decreases audio.samples@.len() - i,
        {
            assert(audio.samples@.take(i + 1).drop_last() =~= audio.samples@.take(i as int));
            match audio.samples[i] {
                Some(v) => {
                    samples.push(v);
                },
                None => {},
            }
            proof {
                assert(samples@ =~= kept_samples(audio.samples@.take(i + 1)));
            }
            i = i + 1;
        }
        assert(audio.samples@.take(audio.samples@.len() as int) =~= audio.samples@);
        Ok(DecodedAudio { samples, sample_rate: audio.sample_rate as usize, full_scale })
    }
}

/// A record turned into integer samples and classes.
#[derive(Debug)]
pub struct SpeechItemSamples {
    pub audio: DecodedAudio,
    /// The class after the word choice.
    pub label: SpeechCommandClass,
    /// The class the record was labelled with.
    pub label_original: SpeechCommandClass,
}

impl ConvertSamples {
    /// Decode WAV bytes into integer samples, their rate and full-scale value.
    pub fn to_audiosamples(bytes: &Vec<u8>) -> (r: Result<DecodedAudio, SpeechError>)
        ensures
            r.is_ok() == (wav_contents(bytes@).is_some() && 1 <= wav_contents(bytes@)->Some_0.1 <= 32),
            wav_contents(bytes@).is_none() ==> r == Err::<DecodedAudio, SpeechError>(SpeechError::InvalidWav),
            r.is_ok() ==> decodes_to(
                wav_contents(bytes@)->Some_0.0,
                wav_contents(bytes@)->Some_0.1,
                wav_contents(bytes@)->Some_0.2,
                r->Ok_0,
            ),
    {
        match read_wav(bytes.as_slice()) {
            Err(_) => Err(SpeechError::InvalidWav),
            Ok(audio) => DecodedAudio::from_wav(&audio),
        }
    }

    /// Turn a raw record into samples and classes.
    pub fn map(item: &SpeechItemRaw) -> (r: Result<SpeechItemSamples, SpeechError>)
        ensures
            r.is_ok() == (item.label <= MAX_CLASS_INDEX && wav_contents(item.audio_bytes@).is_some()
                && 1 <= wav_contents(item.audio_bytes@)->Some_0.1 <= 32),
            item.label > MAX_CLASS_INDEX ==> r == Err::<SpeechItemSamples, SpeechError>(
                SpeechError::UnknownLabel { label: item.label },
            ),
            r.is_ok() ==> {
                &&& class_index(r->Ok_0.label) == chosen_class_index(item.label)
                &&& class_index(r->Ok_0.label_original) == item.label
                &&& decodes_to(
                    wav_contents(item.audio_bytes@)->Some_0.0,
                    wav_contents(item.audio_bytes@)->Some_0.1,
                    wav_contents(item.audio_bytes@)->Some_0.2,
                    r->Ok_0.audio,
                )
            },
    {
        let (label, label_original) = match Self::labels(item.label) {
            Some(pair) => pair,
            None => {
                return Err(SpeechError::UnknownLabel { label: item.label });
            },
        };
        let audio = match Self::to_audiosamples(&item.audio_bytes) {
            Ok(a) => a,
            Err(e) => {
                return Err(e);
            },
        };
        Ok(SpeechItemSamples { audio, label, label_original })
    }
}

impl SpeechCommandsDataset {
    /// The record at `index` turned into samples and classes, or `None`
    /// when there is no such record.
    pub fn get(&self, index: usize) -> (r: Option<Result<SpeechItemSamples, SpeechError>>)
        ensures
            r.is_some() == (index < self.items_spec().len()),
            r.is_some() ==> r.unwrap().is_ok() == (self.items_spec()[index as int].label
                <= MAX_CLASS_INDEX && wav_contents(self.items_spec()[index as int].audio_bytes@).is_some()
                && 1 <= wav_contents(self.items_spec()[index as int].audio_bytes@)->Some_0.1 <= 32),
    {
        if index < self.items.len() {
            Some(ConvertSamples::map(&self.items[index]))
        } else {
            None
        }
    }
}

} // verus!
