//! Device paths as byte strings: how they split into nodes, and how the
//! path of the boot loader on a volume is put together.

use crate::builder::finalize;
use crate::builder::push_file_path;
use crate::builder::push_node;
use core::mem::MaybeUninit;
use uefi::proto::device_path::build::DevicePathBuilder;
use vstd::prelude::*;
use vstd::slice::slice_subrange;

verus! {

/// Size of the header that starts every node: type, sub-type and a
/// little-endian length that counts the header too.
pub const HEADER_LEN: usize = 4;

/// Room in the buffer that a boot path is built in.
pub const PATH_CAPACITY: usize = 256;

/// Node type of both kinds of end node.
pub const TYPE_END: u8 = 0x7f;

/// Sub-type of the node that ends a whole path.
pub const SUBTYPE_END_ENTIRE: u8 = 0xff;

/// Node type of media nodes.
pub const TYPE_MEDIA: u8 = 0x04;

/// Sub-type of the media node that names a file.
pub const SUBTYPE_FILE_PATH: u8 = 0x04;

/// The length field of the node that starts at `at`.
pub open spec fn length_at(bytes: Seq<u8>, at: int) -> int {
    bytes[at + 2] as int + 256 * (bytes[at + 3] as int)
}

/// A node starts at `at` and lies within `bytes`.
pub open spec fn holds_node(bytes: Seq<u8>, at: int) -> bool {
    &&& 0 <= at
    &&& at + HEADER_LEN <= bytes.len()
    &&& HEADER_LEN <= length_at(bytes, at)
    &&& at + length_at(bytes, at) <= bytes.len()
}

/// The node that starts at `at` is the one that ends a whole path.
pub open spec fn ends_path(bytes: Seq<u8>, at: int) -> bool {
    bytes[at] == TYPE_END && bytes[at + 1] == SUBTYPE_END_ENTIRE
}

/// The nodes from `at` up to the end-of-path node, which must be the
/// last thing in `bytes`; `None` where the bytes do not split so.
pub open spec fn nodes_from(bytes: Seq<u8>, at: int) -> Option<Seq<Seq<u8>>>
    decreases bytes.len() - at,
{
    if !holds_node(bytes, at) {
        None
    } else if ends_path(bytes, at) {
        if at + length_at(bytes, at) == bytes.len() {
            Some(Seq::empty())
        } else {
            None
        }
    } else {
        match nodes_from(bytes, at + length_at(bytes, at)) {
            Some(rest) => Some(seq![bytes.subrange(at, at + length_at(bytes, at))] + rest),
            None => None,
        }
    }
}

/// The nodes of a whole path, without its end-of-path node.
pub open spec fn nodes_of(bytes: Seq<u8>) -> Option<Seq<Seq<u8>>> {
    nodes_from(bytes, 0)
}

/// A device path whose bytes are known to split into nodes.
#[derive(Debug, PartialEq, Eq)]
pub struct DevicePath {
    bytes: Vec<u8>,
}

impl View for DevicePath {
    type V = Seq<u8>;

    closed spec fn view(&self) -> Seq<u8> {
        self.bytes@
    }
}

impl DevicePath {
    #[verifier::type_invariant]
    spec fn splits(self) -> bool {
        nodes_of(self.bytes@) is Some
    }

    /// The nodes of the path, in order, without the end-of-path node.
    pub open spec fn nodes(self) -> Seq<Seq<u8>> {
        nodes_of(self@).unwrap()
    }

    /// Accepts `bytes` as a device path exactly when they split into
    /// nodes that end with an end-of-path node.
    pub fn from_bytes(bytes: Vec<u8>) -> (path: Option<DevicePath>)
        ensures
            path is Some <==> nodes_of(bytes@) is Some,
            path is Some ==> path.unwrap()@ == bytes@,
    {
        let total: usize = bytes.len();
        let mut at: usize = 0;
        loop
            invariant
                total == bytes.len(),
                at <= total,
                nodes_of(bytes@) is Some <==> nodes_from(bytes@, at as int) is Some,
            decreases total - at,
        {
            if total - at < HEADER_LEN {
                return None;
            }
            let length: usize = bytes[at + 2] as usize + 256 * (bytes[at + 3] as usize);
            if length < HEADER_LEN || length > total - at {
                return None;
            }
            if bytes[at] == TYPE_END && bytes[at + 1] == SUBTYPE_END_ENTIRE {
                if at + length == total {
                    return Some(DevicePath { bytes });
                }
                return None;
            }
            at = at + length;
        }
    }

    /// Gives up the bytes of the path.
    pub fn into_bytes(self) -> (bytes: Vec<u8>)
        ensures
            bytes@ == self@,
            nodes_of(self@) is Some,
    {
        proof {
            use_type_invariant(&self);
        }
        self.bytes
    }

    /// The bytes of the path, end-of-path node included.
    pub fn as_bytes(&self) -> (bytes: &[u8])
        ensures
            bytes@ == self@,
            nodes_of(self@) is Some,
    {
        proof {
            use_type_invariant(self);
        }
        self.bytes.as_slice()
    }
}

/// `node` is one whole node: a header whose length field is the size
/// of `node`.
pub open spec fn is_node(node: Seq<u8>) -> bool {
    node.len() >= HEADER_LEN && length_at(node, 0) == node.len()
}

/// The node that ends a whole path.
pub open spec fn end_node() -> Seq<u8> {
    seq![TYPE_END, SUBTYPE_END_ENTIRE, 4u8, 0u8]
}

/// `units` is a string that a file-path node can carry: UCS-2, closed by
/// its only NUL.
pub open spec fn is_text(units: Seq<u16>) -> bool {
    &&& units.len() >= 1
    &&& units[units.len() - 1] == 0
    &&& forall|i: int| 0 <= i < units.len() - 1 ==> units[i] != 0
    &&& forall|i: int| 0 <= i < units.len() ==> !(0xd800 <= #[trigger] units[i] <= 0xdfff)
}

/// The code units of a string as bytes, low byte first.
pub open spec fn units_le(units: Seq<u16>) -> Seq<u8> {
    Seq::new(
        2 * units.len(),
        |i: int|
            if i % 2 == 0 {
                (units[i / 2] % 256) as u8
            } else {
                (units[i / 2] / 256) as u8
            },
    )
}

/// The media node that names the file `name`, a string with its NUL.
pub open spec fn file_path_node(name: Seq<u16>) -> Seq<u8> {
    let length = HEADER_LEN + 2 * name.len();
    seq![TYPE_MEDIA, SUBTYPE_FILE_PATH, (length % 256) as u8, (length / 256) as u8] + units_le(
        name,
    )
}

/// Why no boot path can be made from a device path.
#[derive(Clone, Copy, Debug, PartialEq, Eq, Structural)]
pub enum PathError {
    /// The device path has fewer than two nodes before its end.
    TooFewNodes,
    /// The two leading nodes, the file-path node and the end-of-path
    /// node together exceed `PATH_CAPACITY`.
    TooLong,
}

/// The boot file reference: `\EFI\BOOT\BOOTAA64.EFI` in UCS-2, with its
/// NUL.
pub open spec fn boot_file_units() -> Seq<u16> {
    seq![
        0x5cu16, 0x45u16, 0x46u16, 0x49u16,
        0x5cu16, 0x42u16, 0x4fu16, 0x4fu16, 0x54u16,
        0x5cu16, 0x42u16, 0x4fu16, 0x4fu16, 0x54u16, 0x41u16, 0x41u16, 0x36u16, 0x34u16,
        0x2eu16, 0x45u16, 0x46u16, 0x49u16,
        0u16,
    ]
}

/// The path that the boot file is loaded from, given the nodes of the
/// device path of the volume that holds it: the two leading nodes, then
/// the file-path node of the boot file reference, then the end-of-path
/// node.
pub open spec fn boot_path(nodes: Seq<Seq<u8>>) -> Result<Seq<u8>, PathError> {
    if nodes.len() < 2 {
        Err(PathError::TooFewNodes)
    } else {
        let path = nodes[0] + nodes[1] + file_path_node(boot_file_units()) + end_node();
        if path.len() <= PATH_CAPACITY {
            Ok(path)
        } else {
            Err(PathError::TooLong)
        }
    }
}

/// The boot file reference as code units, for the platform's file and
/// path interfaces.
pub fn boot_file_name() -> (name: Vec<u16>)
    ensures
        name@ == boot_file_units(),
        is_text(name@),
{
    let name: Vec<u16> = vec![
        0x5c, 0x45, 0x46, 0x49,
        0x5c, 0x42, 0x4f, 0x4f, 0x54,
        0x5c, 0x42, 0x4f, 0x4f, 0x54, 0x41, 0x41, 0x36, 0x34,
        0x2e, 0x45, 0x46, 0x49,
        0,
    ];
    assert(name@ =~= boot_file_units());
    name
}

/// Behind a prefix, bytes split into nodes as they do alone.
proof fn lemma_nodes_shift(prefix: Seq<u8>, rest: Seq<u8>, at: int)
    requires
        0 <= at,
    ensures
        nodes_from(prefix + rest, prefix.len() + at) == nodes_from(rest, at),
    decreases rest.len() - at,
{
    let whole = prefix + rest;
    let base = prefix.len() as int;
    if at + HEADER_LEN <= rest.len() {
        assert(whole[base + at] == rest[at]);
        assert(whole[base + at + 1] == rest[at + 1]);
        assert(whole[base + at + 2] == rest[at + 2]);
        assert(whole[base + at + 3] == rest[at + 3]);
        let length = length_at(rest, at);
        if holds_node(rest, at) && !ends_path(rest, at) {
            lemma_nodes_shift(prefix, rest, at + length);
            assert(whole.subrange(base + at, base + at + length) =~= rest.subrange(
                at,
                at + length,
            ));
        }
    }
}

/// A whole node in front of a path is the first node of the longer
/// path.
proof fn lemma_nodes_prepend(node: Seq<u8>, rest: Seq<u8>)
    requires
        is_node(node),
        !ends_path(node, 0),
        nodes_of(rest) is Some,
    ensures
        nodes_of(node + rest) == Some(seq![node] + nodes_of(rest).unwrap()),
{
    let whole = node + rest;
    assert(whole[0] == node[0]);
    assert(whole[1] == node[1]);
    assert(whole[2] == node[2]);
    assert(whole[3] == node[3]);
    lemma_nodes_shift(node, rest, 0);
    assert(whole.subrange(0, node.len() as int) =~= node);
}

/// Each node that a path splits into is one whole node, and none of
/// them ends the path.
pub proof fn lemma_nodes_whole(bytes: Seq<u8>, at: int, index: int)
    requires
        nodes_from(bytes, at) is Some,
        0 <= index < nodes_from(bytes, at).unwrap().len(),
    ensures
        is_node(nodes_from(bytes, at).unwrap()[index]),
        !ends_path(nodes_from(bytes, at).unwrap()[index], 0),
    decreases bytes.len() - at,
{
    let length = length_at(bytes, at);
    let node = bytes.subrange(at, at + length);
    if index == 0 {
        assert(node[0] == bytes[at]);
        assert(node[1] == bytes[at + 1]);
        assert(node[2] == bytes[at + 2]);
        assert(node[3] == bytes[at + 3]);
    } else {
        lemma_nodes_whole(bytes, at + length, index - 1);
    }
}

impl DevicePath {
    /// The node at `index`, header included, if the path has that many
    /// nodes before its end.
    pub fn node(&self, index: usize) -> (node: Option<&[u8]>)
        ensures
            node is Some <==> index < self.nodes().len(),
            node is Some ==> node.unwrap()@ == self.nodes()[index as int],
            node is Some ==> is_node(node.unwrap()@) && !ends_path(node.unwrap()@, 0),
    {
        proof {
            use_type_invariant(self);
        }
        let bytes = self.bytes.as_slice();
        let mut at: usize = 0;
        let mut seen: usize = 0;
        loop
            invariant
                bytes@ == self@,
                nodes_of(self@) is Some,
                seen <= index,
                seen <= self.nodes().len(),
                at <= bytes.len(),
                nodes_from(bytes@, at as int) is Some,
                nodes_from(bytes@, at as int).unwrap() =~= self.nodes().skip(seen as int),
            decreases bytes.len() - at,
        {
            let length: usize = bytes[at + 2] as usize + 256 * (bytes[at + 3] as usize);
            if bytes[at] == TYPE_END && bytes[at + 1] == SUBTYPE_END_ENTIRE {
                return None;
            }
            proof {
                let rest = nodes_from(bytes@, at + length).unwrap();
                let here = bytes@.subrange(at as int, at + length);
                assert(nodes_from(bytes@, at as int).unwrap() =~= seq![here] + rest);
                assert(self.nodes().skip(seen as int)[0] == here);
                assert(rest =~= self.nodes().skip(seen + 1)) by {
                    assert forall|i: int| 0 <= i < rest.len() implies rest[i] == self.nodes().skip(
                        seen + 1,
                    )[i] by {
                        assert((seq![here] + rest)[i + 1] == rest[i]);
                        assert(self.nodes().skip(seen as int)[i + 1] == self.nodes()[seen + 1 + i]);
                    }
                }
            }
            if seen == index {
                proof {
                    lemma_nodes_whole(self@, 0, index as int);
                }
                return Some(slice_subrange(bytes, at, at + length));
            }
            at = at + length;
            seen = seen + 1;
        }
    }

    /// The path to load the boot file from, on the volume whose device
    /// path is `self`.
    pub fn boot_image_path(&self) -> (built: Result<DevicePath, PathError>)
        ensures
            match boot_path(self.nodes()) {
                Ok(bytes) => built is Ok && built.unwrap()@ == bytes,
                Err(error) => built is Err && built->Err_0 == error,
            },
            built is Ok ==> built.unwrap().nodes() == seq![
                self.nodes()[0],
                self.nodes()[1],
                file_path_node(boot_file_units()),
            ],
    {
        let first = match self.node(0) {
            Some(node) => node,
            None => {
                return Err(PathError::TooFewNodes);
            },
        };
        let second = match self.node(1) {
            Some(node) => node,
            None => {
                return Err(PathError::TooFewNodes);
            },
        };
        let name = boot_file_name();
        let ghost file = file_path_node(boot_file_units());
        let ghost path = first@ + second@ + file + end_node();
        let mut buffer = [MaybeUninit::<u8>::uninit(); PATH_CAPACITY];
        let builder = DevicePathBuilder::with_buf(&mut buffer);
        let builder = match push_node(builder, first) {
            Ok(builder) => builder,
            Err(_) => {
                return Err(PathError::TooLong);
            },
        };
        let builder = match push_node(builder, second) {
            Ok(builder) => builder,
            Err(_) => {
                return Err(PathError::TooLong);
            },
        };
        let builder = match push_file_path(builder, name.as_slice()) {
            Ok(builder) => builder,
            Err(_) => {
                return Err(PathError::TooLong);
            },
        };
        let bytes = match finalize(builder) {
            Ok(bytes) => bytes,
            Err(_) => {
                return Err(PathError::TooLong);
            },
        };
        proof {
            assert(bytes@ =~= path);
            lemma_boot_path_nodes(first@, second@);
            assert(seq![first@, second@, file] =~= seq![
                self.nodes()[0],
                self.nodes()[1],
                file_path_node(boot_file_units()),
            ]);
        }
        Ok(DevicePath { bytes })
    }
}

/// The boot path made from two whole nodes splits into those two and
/// the file-path node of the boot file reference.
pub proof fn lemma_boot_path_nodes(first: Seq<u8>, second: Seq<u8>)
    requires
        is_node(first),
        !ends_path(first, 0),
        is_node(second),
        !ends_path(second, 0),
    ensures
        nodes_of(first + second + file_path_node(boot_file_units()) + end_node()) == Some(
            seq![first, second, file_path_node(boot_file_units())],
        ),
{
    let file = file_path_node(boot_file_units());
    let end = end_node();
    assert(nodes_of(end) == Some(Seq::<Seq<u8>>::empty()));
    assert(file.len() == 50);
    assert(is_node(file));
    lemma_nodes_prepend(file, end);
    lemma_nodes_prepend(second, file + end);
    lemma_nodes_prepend(first, second + (file + end));
    assert(first + second + file + end =~= first + (second + (file + end)));
    assert(seq![first] + (seq![second] + (seq![file] + Seq::<Seq<u8>>::empty())) =~= seq![
        first,
        second,
        file,
    ]);
}

} // verus!
