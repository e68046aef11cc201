//! The loopback device: a device that exists already, used under another
//! name.

use vstd::prelude::*;
use vstd::string::StringExecFns;
use crate::string_map::{value_of, StringMap};
use crate::text::{join_strings, joined, same_text};
use crate::trusted::{format_uuid, parse_uuid, uuid_text, uuid_value};

verus! {

/// Why a block device could not be set up.
#[derive(Debug, PartialEq, Eq)]
pub enum BdevError {
    /// The URI does not describe a device.
    InvalidUri { uri: String, message: String },
    /// The `uuid` parameter of the URI is no UUID.
    UuidParamParseFailed { uri: String },
    /// A device of this name exists, with another UUID.
    BdevWrongUuid { name: String, uuid: String },
    /// No device of this name exists.
    BdevNotFound { name: String },
}

/// An error with its strings as text.
pub enum BdevErrorView {
    InvalidUri { uri: Seq<char>, message: Seq<char> },
    UuidParamParseFailed { uri: Seq<char> },
    BdevWrongUuid { name: Seq<char>, uuid: Seq<char> },
    BdevNotFound { name: Seq<char> },
}

impl View for BdevError {
    type V = BdevErrorView;

    open spec fn view(&self) -> BdevErrorView {
        match self {
            BdevError::InvalidUri { uri, message } => BdevErrorView::InvalidUri {
                uri: uri@,
                message: message@,
            },
            BdevError::UuidParamParseFailed { uri } => BdevErrorView::UuidParamParseFailed {
                uri: uri@,
            },
            BdevError::BdevWrongUuid { name, uuid } => BdevErrorView::BdevWrongUuid {
                name: name@,
                uuid: uuid@,
            },
            BdevError::BdevNotFound { name } => BdevErrorView::BdevNotFound { name: name@ },
        }
    }
}

/// A loopback device as its URI describes it.
#[derive(Debug, PartialEq, Eq)]
pub struct Loopback {
    /// Name of the device that is used.
    pub name: String,
    /// The URI, which becomes another name of the device.
    pub alias: String,
    /// The UUID that the device must have, if the URI asks for one.
    pub uuid: Option<u128>,
}

/// A loopback device with its strings as text.
pub struct LoopbackView {
    pub name: Seq<char>,
    pub alias: Seq<char>,
    pub uuid: Option<u128>,
}

impl View for Loopback {
    type V = LoopbackView;

    open spec fn view(&self) -> LoopbackView {
        LoopbackView { name: self.name@, alias: self.alias@, uuid: self.uuid }
    }
}

/// The first position among `parameters` of one that is not the `uuid`
/// parameter, or their number if there is none.
pub open spec fn first_unknown(parameters: Seq<(Seq<char>, Seq<char>)>) -> int
    decreases parameters.len(),
{
    if parameters.len() == 0 {
        0
    } else if parameters[0].0 != "uuid"@ {
        0
    } else {
        1 + first_unknown(parameters.drop_first())
    }
}

/// The loopback device that a URI describes, given the URI's path
/// segments and query parameters, and given the 128-bit value of its
/// `uuid` parameter where that is one. A URI without path segments
/// describes none; a `uuid` parameter must be a UUID; and no other
/// parameter is known: the first one is reported.
pub open spec fn loopback_of(
    uri: Seq<char>,
    segments: Seq<Seq<char>>,
    parameters: StringMap,
    uuid: Option<u128>,
) -> Result<LoopbackView, BdevErrorView> {
    let pairs = parameters.entries();
    let unknown = first_unknown(pairs);
    if segments.len() == 0 {
        Err(BdevErrorView::InvalidUri { uri, message: "no path segments"@ })
    } else if value_of(parameters@, "uuid"@) is Some && uuid is None {
        Err(BdevErrorView::UuidParamParseFailed { uri })
    } else if unknown < pairs.len() {
        Err(
            BdevErrorView::InvalidUri {
                uri,
                message: "unrecognized parameter(s): "@ + pairs[unknown].0 + "="@
                    + pairs[unknown].1,
            },
        )
    } else {
        Ok(
            LoopbackView {
                name: joined(segments, "/"@),
                alias: uri,
                uuid: if value_of(parameters@, "uuid"@) is Some {
                    uuid
                } else {
                    None
                },
            },
        )
    }
}

/// A loopback device or an error, with their strings as text.
pub open spec fn loopback_view(device: Result<Loopback, BdevError>) -> Result<
    LoopbackView,
    BdevErrorView,
> {
    match device {
        Ok(device) => Ok(device@),
        Err(error) => Err(error@),
    }
}

/// Where the first parameter that is not `uuid` lies from position `from`
/// on.
proof fn lemma_first_unknown_from(parameters: Seq<(Seq<char>, Seq<char>)>, from: int)
    requires
        0 <= from <= parameters.len(),
        forall|j: int| 0 <= j < from ==> (#[trigger] parameters[j]).0 == "uuid"@,
    ensures
        first_unknown(parameters) == from + first_unknown(
            parameters.subrange(from, parameters.len() as int),
        ),
    decreases from,
{
    if from > 0 {
        lemma_first_unknown_from(parameters, from - 1);
        let tail = parameters.subrange(from - 1, parameters.len() as int);
        assert(tail.drop_first() =~= parameters.subrange(from, parameters.len() as int));
        assert(tail[0] == parameters[from - 1]);
    } else {
        assert(parameters.subrange(0, parameters.len() as int) =~= parameters);
    }
}

fn find_unknown(parameters: &Vec<(String, String)>) -> (at: usize)
    ensures
        at == first_unknown(parameters.deep_view()),
        at <= parameters.len(),
{
    let ghost pairs = parameters.deep_view();
    let mut i: usize = 0;
    while i < parameters.len()
        invariant
            i <= parameters.len(),
            pairs == parameters.deep_view(),
            forall|j: int| 0 <= j < i ==> (#[trigger] pairs[j]).0 == "uuid"@,
        decreases parameters.len() - i,
    {
        assert(pairs[i as int].0 == parameters[i as int].0@);
        if !same_text(parameters[i].0.as_str(), "uuid") {
            proof {
                lemma_first_unknown_from(pairs, i as int);
                assert(pairs.subrange(i as int, pairs.len() as int)[0] == pairs[i as int]);
            }
            return i;
        }
        i += 1;
    }
    proof {
        lemma_first_unknown_from(pairs, i as int);
        assert(pairs.subrange(i as int, pairs.len() as int).len() == 0);
    }
    i
}

/// The segments of a URI's path as a device reads them: a path that is one
/// empty segment has none.
pub open spec fn path_segments(raw: Seq<Seq<char>>) -> Seq<Seq<char>> {
    if raw.len() == 1 && raw[0].len() == 0 {
        Seq::empty()
    } else {
        raw
    }
}

/// Reads the segments of a URI's path from the pieces between its slashes.
pub fn segments(raw: Vec<String>) -> (read: Vec<String>)
    ensures
        read.deep_view() == path_segments(raw.deep_view()),
{
    if raw.len() == 1 && raw[0].as_str().unicode_len() == 0 {
        let read: Vec<String> = Vec::new();
        assert(read.deep_view() =~= Seq::<Seq<char>>::empty());
        read
    } else {
        raw
    }
}

impl Loopback {
    /// Reads a loopback device from the parts of its URI, given the
    /// 128-bit value of the URI's `uuid` parameter where that is one.
    pub fn from_parts(
        uri: &str,
        segments: &Vec<String>,
        parameters: &StringMap,
        uuid: Option<u128>,
    ) -> (device: Result<Loopback, BdevError>)
        ensures
            loopback_view(device) == loopback_of(uri@, segments.deep_view(), *parameters, uuid),
    {
        if segments.len() == 0 {
            return Err(
                BdevError::InvalidUri {
                    uri: uri.to_owned(),
                    message: "no path segments".to_owned(),
                },
            );
        }
        let asked = parameters.get("uuid").is_some();
        if asked && uuid.is_none() {
            return Err(BdevError::UuidParamParseFailed { uri: uri.to_owned() });
        }
        let pairs = parameters.to_vec();
        let unknown = find_unknown(&pairs);
        if unknown < pairs.len() {
            assert(pairs.deep_view()[unknown as int].0 == pairs[unknown as int].0@);
            assert(pairs.deep_view()[unknown as int].1 == pairs[unknown as int].1@);
            let mut message = String::from_str("unrecognized parameter(s): ");
            message.append(pairs[unknown].0.as_str());
            message.append("=");
            message.append(pairs[unknown].1.as_str());
            return Err(BdevError::InvalidUri { uri: uri.to_owned(), message });
        }
        Ok(
            Loopback {
                name: join_strings(segments, "/"),
                alias: uri.to_owned(),
                uuid: if asked {
                    uuid
                } else {
                    None
                },
            },
        )
    }

    /// Reads a loopback device from the parts of its URI: its text, its
    /// path segments and its query parameters.
    pub fn try_from(
        uri: &str,
        segments: &Vec<String>,
        parameters: &StringMap,
    ) -> (device: Result<Loopback, BdevError>)
        ensures
            loopback_view(device) == loopback_of(
                uri@,
                segments.deep_view(),
                *parameters,
                match value_of(parameters@, "uuid"@) {
                    Some(text) => uuid_value(text),
                    None => None,
                },
            ),
    {
        let uuid = match parameters.get("uuid") {
            Some(text) => parse_uuid(text.as_str()),
            None => None,
        };
        Loopback::from_parts(uri, segments, parameters, uuid)
    }

    /// The name of the device.
    pub fn get_name(&self) -> (name: String)
        ensures
            name == self.name,
    {
        self.name.clone()
    }

    /// What creating the loopback device comes to, given the UUID of the
    /// device that has its name, if there is one: the device's name, under
    /// which the caller then adds the alias. No device of that name, or one
    /// with a UUID other than the one asked for, is an error.
    pub fn create(&self, found: Option<u128>) -> (created: Result<String, BdevError>)
        ensures
            match found {
                Some(uuid) => match self.uuid {
                    Some(wanted) if wanted != uuid => created matches Err(error) && error@ == (
                    BdevErrorView::BdevWrongUuid { name: self.name@, uuid: uuid_text(uuid) }),
                    _ => created matches Ok(name) && name == self.name,
                },
                None => created matches Err(error) && error@ == (BdevErrorView::BdevNotFound {
                    name: self.name@,
                }),
            },
    {
        match found {
            Some(uuid) => {
                match self.uuid {
                    Some(wanted) => {
                        if wanted != uuid {
                            return Err(
                                BdevError::BdevWrongUuid {
                                    name: self.get_name(),
                                    uuid: format_uuid(uuid),
                                },
                            );
                        }
                    },
                    None => {},
                }
                Ok(self.get_name())
            },
            None => Err(BdevError::BdevNotFound { name: self.get_name() }),
        }
    }
}

} // verus!
