//! Where a logical monitor is shown and how it is turned.

use vstd::prelude::*;
use vstd::string::StringExecFns;

use crate::binary64::Binary64;
use crate::error::Error;
use crate::text::{
    i32_of, lowercase, parse_i32, pieces_view, same_text, split, split_on, to_lowercase,
};

verus! {

/// How far a monitor's picture is turned, clockwise.
#[derive(Debug, Clone, Copy, PartialEq, Eq, Structural)]
pub enum Rotation {
    /// Not turned.
    Normal,
    /// A quarter turn.
    Right,
    /// A half turn.
    Inverted,
    /// Three quarter turns.
    Left,
}

impl Rotation {
    /// The two low bits that encode this rotation.
    pub open spec fn code(self) -> u32 {
        match self {
            Rotation::Normal => 0,
            Rotation::Right => 1,
            Rotation::Inverted => 2,
            Rotation::Left => 3,
        }
    }

    /// The rotation that two low bits encode.
    pub open spec fn of_code(code: u32) -> Rotation {
        if code == 0 {
            Rotation::Normal
        } else if code == 1 {
            Rotation::Right
        } else if code == 2 {
            Rotation::Inverted
        } else {
            Rotation::Left
        }
    }

    /// The name of the rotation.
    pub open spec fn spec_name(self) -> Seq<char> {
        match self {
            Rotation::Normal => "Normal"@,
            Rotation::Right => "Right"@,
            Rotation::Inverted => "Inverted"@,
            Rotation::Left => "Left"@,
        }
    }

    /// Names the rotation.
    pub fn name(&self) -> (name: &'static str)
        ensures
            name@ == self.spec_name(),
    {
        match self {
            Rotation::Normal => "Normal",
            Rotation::Right => "Right",
            Rotation::Inverted => "Inverted",
            Rotation::Left => "Left",
        }
    }
}

/// A rotation together with an optional mirror flip.
///
/// On the wire this is a set of three bits: bit 0 is a quarter turn, bit 1 a
/// half turn (both together three quarter turns) and bit 2 the flip.
#[derive(Debug, Clone, Copy, PartialEq, Eq, Structural)]
pub struct Orientation {
    pub rotation: Rotation,
    pub flipped: bool,
}

/// The bit that marks a flipped picture.
pub const FLIP_BIT: u32 = 4;

/// All bits that an orientation may hold.
pub const ORIENTATION_MASK: u32 = 7;

impl Orientation {
    /// The wire encoding of this orientation.
    pub open spec fn spec_bits(self) -> u32 {
        if self.flipped {
            (self.rotation.code() + 4) as u32
        } else {
            self.rotation.code()
        }
    }

    /// The orientation that the three low bits of `bits` encode.
    pub open spec fn of_bits(bits: u32) -> Orientation {
        Orientation { rotation: Rotation::of_code(bits & 3), flipped: bits & 4 == 4 }
    }

    /// Encodes the orientation.
    pub fn bits(&self) -> (bits: u32)
        ensures
            bits == self.spec_bits(),
            bits <= ORIENTATION_MASK,
            Self::of_bits(bits) == *self,
    {
        let low: u32 = match self.rotation {
            Rotation::Normal => 0,
            Rotation::Right => 1,
            Rotation::Inverted => 2,
            Rotation::Left => 3,
        };
        let bits: u32 = if self.flipped { low + FLIP_BIT } else { low };
        proof {
            Self::lemma_bits_round_trip(*self);
        }
        bits
    }

    /// Decodes an orientation, dropping every bit that has no meaning.
    pub fn from_bits_truncate(bits: u32) -> (orientation: Orientation)
        ensures
            orientation == Self::of_bits(bits),
            orientation.spec_bits() == bits & ORIENTATION_MASK,
    {
        let low: u32 = bits & 3;
        let rotation = if low == 0 {
            Rotation::Normal
        } else if low == 1 {
            Rotation::Right
        } else if low == 2 {
            Rotation::Inverted
        } else {
            Rotation::Left
        };
        let flipped = bits & FLIP_BIT == FLIP_BIT;
        proof {
            Self::lemma_of_bits_encodes(bits);
        }
        Orientation { rotation, flipped }
    }

    /// The orientation that holds every bit of `self` and of `other`.
    pub open spec fn spec_union(self, other: Orientation) -> Orientation {
        Self::of_bits(self.spec_bits() | other.spec_bits())
    }

    /// Combines two orientations bit by bit: a quarter turn and a half turn
    /// make three quarter turns, and the result is flipped if either is.
    pub fn union(self, other: Orientation) -> (both: Orientation)
        ensures
            both == self.spec_union(other),
            both.spec_bits() == self.spec_bits() | other.spec_bits(),
    {
        let a: u32 = self.bits();
        let b: u32 = other.bits();
        assert((a | b) & 7 == a | b) by (bit_vector)
            requires
                a <= 7,
                b <= 7,
        ;
        Self::from_bits_truncate(a | b)
    }

    /// Whether every bit of `other` is set in `self`.
    pub open spec fn spec_contains(self, other: Orientation) -> bool {
        self.spec_bits() & other.spec_bits() == other.spec_bits()
    }

    /// Tells whether `self` holds every bit of `other`.
    pub fn contains(&self, other: Orientation) -> (held: bool)
        ensures
            held == self.spec_contains(other),
    {
        let a: u32 = self.bits();
        let b: u32 = other.bits();
        a & b == b
    }

    /// Decoding what `bits` encodes gives the orientation back.
    pub proof fn lemma_bits_round_trip(orientation: Orientation)
        ensures
            orientation.spec_bits() <= 7,
            Self::of_bits(orientation.spec_bits()) == orientation,
    {
        Self::lemma_low_bits(orientation);
    }

    /// Encoding what `bits` decodes to gives its three low bits back.
    pub proof fn lemma_of_bits_encodes(bits: u32)
        ensures
            Self::of_bits(bits).spec_bits() == bits & 7,
    {
        let low = bits & 3;
        let flip = bits & 4;
        assert(low <= 3 && (flip == 0 || flip == 4) && bits & 7 == (bits & 3) + (bits & 4))
            by (bit_vector)
            requires
                low == bits & 3,
                flip == bits & 4,
        ;
    }

    /// The union of two orientations is flipped if either is, and is turned
    /// by the bits of both turns together.
    pub proof fn law_union_in_parts(self, other: Orientation)
        ensures
            self.spec_union(other).flipped == (self.flipped || other.flipped),
            self.spec_union(other).rotation.code() == self.rotation.code()
                | other.rotation.code(),
    {
        let a = self.spec_bits();
        let b = other.spec_bits();
        let c = self.rotation.code();
        let d = other.rotation.code();
        Self::lemma_bits_round_trip(self);
        Self::lemma_bits_round_trip(other);
        assert(((a | b) & 4 == 4) == (a & 4 == 4 || b & 4 == 4) && (a | b) & 3 == (a & 3) | (b
            & 3) && (a & 3) | (b & 3) <= 3) by (bit_vector);
        assert(c == a & 3 && d == b & 3) by {
            Self::lemma_low_bits(self);
            Self::lemma_low_bits(other);
        }
    }

    /// The two low bits of an encoded orientation encode its rotation.
    pub proof fn lemma_low_bits(orientation: Orientation)
        ensures
            orientation.spec_bits() & 3 == orientation.rotation.code(),
            (orientation.spec_bits() & 4 == 4) == orientation.flipped,
    {
        assert(0u32 & 3 == 0 && 1u32 & 3 == 1 && 2u32 & 3 == 2 && 3u32 & 3 == 3 && 4u32 & 3 == 0
            && 5u32 & 3 == 1 && 6u32 & 3 == 2 && 7u32 & 3 == 3) by (bit_vector);
        assert(0u32 & 4 == 0 && 1u32 & 4 == 0 && 2u32 & 4 == 0 && 3u32 & 4 == 0 && 4u32 & 4 == 4
            && 5u32 & 4 == 4 && 6u32 & 4 == 4 && 7u32 & 4 == 4) by (bit_vector);
    }

    /// The name of the orientation: that of its rotation, after `Flipped `
    /// if it is flipped.
    pub open spec fn spec_name(self) -> Seq<char> {
        if self.flipped {
            "Flipped "@ + self.rotation.spec_name()
        } else {
            self.rotation.spec_name()
        }
    }

    /// Names the orientation.
    pub fn name(&self) -> (name: String)
        ensures
            name@ == self.spec_name(),
    {
        if self.flipped {
            String::from_str("Flipped ").concat(self.rotation.name())
        } else {
            String::from_str(self.rotation.name())
        }
    }

    /// The orientation that one lower-case word stands for, if it is one of
    /// the five words that stand for one.
    pub open spec fn of_keyword(word: Seq<char>) -> Option<Orientation> {
        if word == "normal"@ {
            Some(Orientation { rotation: Rotation::Normal, flipped: false })
        } else if word == "left"@ {
            Some(Orientation { rotation: Rotation::Left, flipped: false })
        } else if word == "right"@ {
            Some(Orientation { rotation: Rotation::Right, flipped: false })
        } else if word == "inverted"@ {
            Some(Orientation { rotation: Rotation::Inverted, flipped: false })
        } else if word == "flipped"@ {
            Some(Orientation { rotation: Rotation::Normal, flipped: true })
        } else {
            None
        }
    }

    /// Reads one lower-case word: `normal`, `left`, `right`, `inverted` or
    /// `flipped`.
    pub fn from_keyword(word: &str) -> (orientation: Option<Orientation>)
        ensures
            orientation == Self::of_keyword(word@),
    {
        if same_text(word, "normal") {
            Some(Orientation { rotation: Rotation::Normal, flipped: false })
        } else if same_text(word, "left") {
            Some(Orientation { rotation: Rotation::Left, flipped: false })
        } else if same_text(word, "right") {
            Some(Orientation { rotation: Rotation::Right, flipped: false })
        } else if same_text(word, "inverted") {
            Some(Orientation { rotation: Rotation::Inverted, flipped: false })
        } else if same_text(word, "flipped") {
            Some(Orientation { rotation: Rotation::Normal, flipped: true })
        } else {
            None
        }
    }

    /// The union of the orientations that the lower-case words stand for;
    /// nothing if a word stands for none.
    pub open spec fn of_words(words: Seq<Seq<char>>) -> Option<Orientation>
        decreases words.len(),
    {
        if words.len() == 0 {
            Some(Orientation { rotation: Rotation::Normal, flipped: false })
        } else {
            match (Self::of_words(words.drop_last()), Self::of_keyword(words.last())) {
                (Some(earlier), Some(orientation)) => Some(orientation.spec_union(earlier)),
                _ => None,
            }
        }
    }

    /// Once the first `upto` words stand for nothing, all of them do.
    pub proof fn lemma_of_words_fails(words: Seq<Seq<char>>, upto: int)
        requires
            0 <= upto <= words.len(),
            Self::of_words(words.take(upto)) is None,
        ensures
            Self::of_words(words) is None,
        decreases words.len() - upto,
    {
        if upto < words.len() {
            assert(words.take(upto + 1).drop_last() =~= words.take(upto));
            Self::lemma_of_words_fails(words, upto + 1);
        } else {
            assert(words.take(upto) =~= words);
        }
    }

    /// Combines the orientations that lower-case words stand for: turns add
    /// up bit by bit, and one `flipped` flips the whole. No words at all stand
    /// for the normal orientation; a word that is none of the five makes the
    /// list an invalid argument.
    pub fn from_words(words: &Vec<String>) -> (orientation: Result<Orientation, Error>)
        ensures
            orientation == match Self::of_words(words_view(words@)) {
                Some(combined) => Ok::<Orientation, Error>(combined),
                None => Err::<Orientation, Error>(Error::InvalidArgument),
            },
    {
        let ghost all = words_view(words@);
        let mut combined = Orientation { rotation: Rotation::Normal, flipped: false };
        let mut i: usize = 0;
        while i < words.len()
            invariant
                i <= words@.len(),
                all == words_view(words@),
                Self::of_words(all.take(i as int)) == Some(combined),
            decreases words@.len() - i,
        {
            proof {
                assert(all.take(i + 1).drop_last() =~= all.take(i as int));
            }
            match Self::from_keyword(words[i].as_str()) {
                Some(orientation) => {
                    combined = orientation.union(combined);
                },
                None => {
                    proof {
                        Self::lemma_of_words_fails(all, i + 1);
                    }
                    return Err(Error::InvalidArgument);
                },
            }
            i += 1;
        }
        assert(all.take(all.len() as int) =~= all);
        Ok(combined)
    }

    /// The orientation that a text stands for: the union of what its words
    /// stand for. The words are the pieces between the commas of the text in
    /// lower case, each put in lower case once more.
    pub open spec fn parsed(text: Seq<char>) -> Option<Orientation> {
        Self::of_words(split_on(lowercase(text), ',').map_values(|w: Seq<char>| lowercase(w)))
    }

    /// Reads an orientation from words joined by commas, such as
    /// `left,flipped`, in any mix of upper and lower case. A word that is none
    /// of the five makes the text an invalid argument; so does an empty piece,
    /// and with it the empty text.
    pub fn from_str(s: &str) -> (orientation: Result<Orientation, Error>)
        ensures
            orientation == match Self::parsed(s@) {
                Some(parsed) => Ok::<Orientation, Error>(parsed),
                None => Err::<Orientation, Error>(Error::InvalidArgument),
            },
    {
        let lowered = to_lowercase(s);
        let pieces = split(lowered.as_str(), ',');
        let ghost wanted = split_on(lowercase(s@), ',').map_values(|w: Seq<char>| lowercase(w));
        let mut words: Vec<String> = Vec::new();
        let mut i: usize = 0;
        while i < pieces.len()
            invariant
                i <= pieces@.len(),
                pieces_view(pieces@) == split_on(lowercase(s@), ','),
                wanted == split_on(lowercase(s@), ',').map_values(|w: Seq<char>| lowercase(w)),
                words@.len() == i,
                forall|k: int| 0 <= k < i ==> (#[trigger] words@[k])@ == wanted[k],
            decreases pieces@.len() - i,
        {
            words.push(to_lowercase(pieces[i]));
            i += 1;
        }
        assert(words_view(words@) =~= wanted);
        Self::from_words(&words)
    }
}

/// The texts of a list of words.
pub open spec fn words_view(words: Seq<String>) -> Seq<Seq<char>> {
    words.map_values(|w: String| w@)
}

/// Where a logical monitor sits and how much it is magnified.
#[derive(Debug, Clone, Copy, PartialEq, Eq, Structural)]
pub struct Displacement {
    /// Horizontal position.
    pub x: i32,
    /// Vertical position.
    pub y: i32,
    /// Magnification.
    pub scale: Binary64,
}

impl Displacement {
    /// The position that a lower-case text gives, and the scale as it is
    /// written in the text: the three pieces between the commas of the text,
    /// the first two read as integers. Nothing if there are not exactly three
    /// pieces or one of the first two is no integer.
    pub open spec fn fields_of(text: Seq<char>) -> Option<(i32, i32, Seq<char>)> {
        let pieces = split_on(text, ',');
        if pieces.len() == 3 && i32_of(pieces[0]) is Some && i32_of(pieces[1]) is Some {
            Some((i32_of(pieces[0])->Some_0, i32_of(pieces[1])->Some_0, pieces[2]))
        } else {
            None
        }
    }

    /// Takes a lower-case text such as `100,88,1` apart: x, y and scale,
    /// always in this order. The position is read; the scale is handed back as
    /// written, for the caller to read as a real number. Any other shape is an
    /// invalid argument.
    pub fn split_fields(text: &str) -> (fields: Result<(i32, i32, String), Error>)
        ensures
            match Self::fields_of(text@) {
                Some((x, y, scale)) => fields is Ok && fields->Ok_0.0 == x && fields->Ok_0.1 == y
                    && fields->Ok_0.2@ == scale,
                None => fields == Err::<(i32, i32, String), Error>(Error::InvalidArgument),
            },
    {
        let pieces = split(text, ',');
        if pieces.len() != 3 {
            return Err(Error::InvalidArgument);
        }
        match (parse_i32(pieces[0]), parse_i32(pieces[1])) {
            (Some(x), Some(y)) => Ok((x, y, pieces[2].to_owned())),
            _ => Err(Error::InvalidArgument),
        }
    }

    /// Takes a text in any mix of upper and lower case apart, as
    /// `split_fields` does with its lower-case form.
    pub fn split_str(s: &str) -> (fields: Result<(i32, i32, String), Error>)
        ensures
            match Self::fields_of(lowercase(s@)) {
                Some((x, y, scale)) => fields is Ok && fields->Ok_0.0 == x && fields->Ok_0.1 == y
                    && fields->Ok_0.2@ == scale,
                None => fields == Err::<(i32, i32, String), Error>(Error::InvalidArgument),
            },
    {
        let lowered = to_lowercase(s);
        Self::split_fields(lowered.as_str())
    }
}

/// Where and how a logical monitor is shown.
#[derive(Debug, Clone, Copy, PartialEq, Eq, Structural)]
pub struct Transform {
    pub displacement: Displacement,
    pub orientation: Orientation,
}

impl Transform {
    /// The transform with the given position, magnification and encoded
    /// orientation; bits of `spin` without a meaning are dropped.
    pub open spec fn spec_from(x: i32, y: i32, scale: Binary64, spin: u32) -> Transform {
        Transform {
            displacement: Displacement { x, y, scale },
            orientation: Orientation::of_bits(spin),
        }
    }

    /// Builds a transform from position, magnification and encoded
    /// orientation.
    pub fn from(x: i32, y: i32, scale: Binary64, spin: u32) -> (transform: Transform)
        ensures
            transform == Self::spec_from(x, y, scale, spin),
    {
        Transform {
            displacement: Displacement { x, y, scale },
            orientation: Orientation::from_bits_truncate(spin),
        }
    }
}

} // verus!
