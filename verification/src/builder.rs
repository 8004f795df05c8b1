//! The path builder of the `uefi` crate, as far as a boot path needs
//! it. Nothing in this file is proved: each contract says what the
//! crate's source shows of the function named above it.

use crate::device_path::end_node;
use crate::device_path::ends_path;
use crate::device_path::file_path_node;
use crate::device_path::is_node;
use crate::device_path::is_text;
use crate::device_path::HEADER_LEN;
use core::mem::MaybeUninit;
use uefi::proto::device_path::build::media::FilePath;
use uefi::proto::device_path::build::BuildError;
use uefi::proto::device_path::build::DevicePathBuilder;
use uefi::proto::device_path::DevicePathNode;
use uefi::CStr16;
use vstd::prelude::*;

verus! {

/// `uefi::proto::device_path::build::DevicePathBuilder`, of which
/// nothing is known but what `built` and `room` name.
#[verifier::external_type_specification]
#[verifier::external_body]
pub struct ExDevicePathBuilder<'a>(DevicePathBuilder<'a>);

/// `uefi::proto::device_path::build::BuildError`, carried and never
/// looked into.
#[verifier::external_type_specification]
#[verifier::external_body]
pub struct ExBuildError(BuildError);

/// The bytes that a builder has taken so far.
pub uninterp spec fn built(builder: DevicePathBuilder<'_>) -> Seq<u8>;

/// The size of the buffer that a builder was made with.
pub uninterp spec fn room(builder: DevicePathBuilder<'_>) -> nat;

/// `DevicePathBuilder::with_buf`: the builder starts empty, and its room
/// is the whole of `buf`.
pub assume_specification<'a>[ DevicePathBuilder::<'a>::with_buf ](
    buf: &'a mut [MaybeUninit<u8>],
) -> (builder: DevicePathBuilder<'a>)
    ensures
        built(builder) == Seq::<u8>::empty(),
        room(builder) == old(buf)@.len(),
;

/// `DevicePathBuilder::push` with a node copied from `node`, which
/// `<&DevicePathNode>::try_from` reads as one whole node: the node's
/// bytes are appended if they fit in what room is left, and only then.
/// An end-of-path node is kept out: `finalize` is the way to add it.
#[verifier::external_body]
pub(crate) fn push_node<'a>(builder: DevicePathBuilder<'a>, node: &[u8]) -> (pushed: Result<
    DevicePathBuilder<'a>,
    BuildError,
>)
    requires
        is_node(node@),
        !ends_path(node@, 0),
    ensures
        pushed is Ok <==> built(builder).len() + node@.len() <= room(builder),
        pushed is Ok ==> built(pushed.unwrap()) == built(builder) + node@,
        pushed is Ok ==> room(pushed.unwrap()) == room(builder),
{
    let node = <&DevicePathNode>::try_from(node).unwrap();
    builder.push(&node)
}

/// `DevicePathBuilder::push` with a `build::media::FilePath` whose name
/// `CStr16::from_u16_with_nul` reads from `name`: the file-path node is
/// appended if its length fits in sixteen bits and the node fits in
/// what room is left, and only then. The code units go out in the
/// machine's byte order, which is low byte first wherever such
/// firmware runs.
#[verifier::external_body]
pub(crate) fn push_file_path<'a>(builder: DevicePathBuilder<'a>, name: &[u16]) -> (pushed: Result<
    DevicePathBuilder<'a>,
    BuildError,
>)
    requires
        is_text(name@),
    ensures
        pushed is Ok <==> (file_path_node(name@).len() <= 0xffff && built(builder).len()
            + file_path_node(name@).len() <= room(builder)),
        pushed is Ok ==> built(pushed.unwrap()) == built(builder) + file_path_node(name@),
        pushed is Ok ==> room(pushed.unwrap()) == room(builder),
{
    let name = CStr16::from_u16_with_nul(name).unwrap();
    builder.push(&FilePath { path_name: name })
}

/// `DevicePathBuilder::finalize`, and `DevicePath::as_bytes` on what it
/// gives: the end-of-path node is appended if four bytes of room are
/// left, and only then, and the bytes of the whole path come back.
#[verifier::external_body]
pub(crate) fn finalize(builder: DevicePathBuilder<'_>) -> (bytes: Result<Vec<u8>, BuildError>)
    ensures
        bytes is Ok <==> built(builder).len() + HEADER_LEN <= room(builder),
        bytes is Ok ==> bytes.unwrap()@ == built(builder) + end_node(),
{
    match builder.finalize() {
        Ok(path) => Ok(path.as_bytes().to_vec()),
        Err(error) => Err(error),
    }
}

} // verus!
