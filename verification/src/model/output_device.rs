use crate::text::str_eq;
use vstd::prelude::*;
use vstd::string::*;

verus! {

/// The type of output device that the user is using.
///
/// The API is inconsistent, sometimes representing this as a string and
/// sometimes as a number.
#[derive(Debug, Clone, PartialEq, Eq, Hash, Structural)]
pub enum OutputDevice {
    /// Output device not known
    Unknown,
    /// No visual output, server machine
    Headless,
    /// Desktop
    Screen,
    /// Virtual Reality
    Vr,
    /// In game camera
    Camera,
}

impl OutputDevice {
    /// The name of the variant, as the API writes it.
    pub open spec fn name(self) -> Seq<char> {
        match self {
            OutputDevice::Unknown => "Unknown"@,
            OutputDevice::Headless => "Headless"@,
            OutputDevice::Screen => "Screen"@,
            OutputDevice::Vr => "VR"@,
            OutputDevice::Camera => "Camera"@,
        }
    }

    /// The name of the variant, as the API writes it.
    #[must_use]
    pub fn as_str(&self) -> (r: &'static str)
        ensures
            r@ == self.name(),
    {
        match self {
            OutputDevice::Unknown => "Unknown",
            OutputDevice::Headless => "Headless",
            OutputDevice::Screen => "Screen",
            OutputDevice::Vr => "VR",
            OutputDevice::Camera => "Camera",
        }
    }

    /// The name of the variant, as a string of its own.
    #[must_use]
    pub fn to_string(&self) -> (r: String)
        ensures
            r@ == self.name(),
    {
        String::from_str(self.as_str())
    }

    /// The variant that a name stands for. The name has to match to the
    /// letter.
    #[must_use]
    pub fn from_name(name: &str) -> (r: Option<Self>)
        ensures
            match r {
                Some(variant) => variant.name() == name@,
                None => forall|variant: Self| variant.name() != name@,
            },
    {
        if str_eq(name, "Unknown") {
            Some(OutputDevice::Unknown)
        } else if str_eq(name, "Headless") {
            Some(OutputDevice::Headless)
        } else if str_eq(name, "Screen") {
            Some(OutputDevice::Screen)
        } else if str_eq(name, "VR") {
            Some(OutputDevice::Vr)
        } else if str_eq(name, "Camera") {
            Some(OutputDevice::Camera)
        } else {
            None
        }
    }

    /// No two variants share a name.
    pub proof fn lemma_names_differ(a: Self, b: Self)
        requires
            a.name() == b.name(),
        ensures
            a == b,
    {
        reveal_strlit("Unknown");
        reveal_strlit("Headless");
        reveal_strlit("Screen");
        reveal_strlit("VR");
        reveal_strlit("Camera");
        assert("Unknown"@.len() == 7);
        assert("Headless"@.len() == 8);
        assert("Screen"@.len() == 6);
        assert("VR"@.len() == 2);
        assert("Camera"@.len() == 6);
        assert("Screen"@[0] != "Camera"@[0]);
    }

    /// The number of the variant, as the API writes it.
    pub open spec fn repr(self) -> u8 {
        match self {
            OutputDevice::Unknown => 0,
            OutputDevice::Headless => 1,
            OutputDevice::Screen => 2,
            OutputDevice::Vr => 3,
            OutputDevice::Camera => 4,
        }
    }

    /// The number of the variant, as the API writes it.
    #[must_use]
    pub fn to_repr(&self) -> (r: u8)
        ensures
            r == self.repr(),
    {
        match self {
            OutputDevice::Unknown => 0,
            OutputDevice::Headless => 1,
            OutputDevice::Screen => 2,
            OutputDevice::Vr => 3,
            OutputDevice::Camera => 4,
        }
    }

    /// The variant that a number stands for.
    #[must_use]
    pub fn from_repr(number: u8) -> (r: Option<Self>)
        ensures
            match r {
                Some(variant) => variant.repr() == number,
                None => forall|variant: Self| variant.repr() != number,
            },
    {
        if number == 0 {
            Some(OutputDevice::Unknown)
        } else if number == 1 {
            Some(OutputDevice::Headless)
        } else if number == 2 {
            Some(OutputDevice::Screen)
        } else if number == 3 {
            Some(OutputDevice::Vr)
        } else if number == 4 {
            Some(OutputDevice::Camera)
        } else {
            None
        }
    }

    /// The variant that an unsigned number stands for: none where the
    /// number does not fit in eight bits.
    #[must_use]
    pub fn from_u64(number: u64) -> (r: Option<Self>)
        ensures
            match r {
                Some(variant) => variant.repr() == number,
                None => forall|variant: Self| variant.repr() != number,
            },
    {
        if number <= 255 {
            Self::from_repr(number as u8)
        } else {
            None
        }
    }

    /// The variant that a signed number stands for: none where the number
    /// does not fit in eight bits without a sign.
    #[must_use]
    pub fn from_i64(number: i64) -> (r: Option<Self>)
        ensures
            match r {
                Some(variant) => variant.repr() == number,
                None => forall|variant: Self| variant.repr() != number,
            },
    {
        if 0 <= number && number <= 255 {
            Self::from_repr(number as u8)
        } else {
            None
        }
    }
}

} // verus!
