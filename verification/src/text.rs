//! The fixed texts of the library: the accepted source extension, the
//! artifact extension, the path separator, and the diagnostic messages a
//! rejected or failed job carries. Each text exists twice: as a spec
//! constant the contracts speak of, and as an executable builder proved to
//! produce exactly that constant.

use vstd::prelude::*;

verus! {

/// The accepted source extension: `"cairo"` as bytes.
pub open spec fn cairo_ext() -> Seq<u8> {
    seq![99u8, 97u8, 105u8, 114u8, 111u8]
}

/// Executable copy of `cairo_ext`: `"cairo"` as bytes.
pub fn cairo_ext_bytes() -> (v: Vec<u8>)
    ensures
        v@ == cairo_ext(),
{
    let mut v: Vec<u8> = Vec::new();
    v.push(99u8);
    v.push(97u8);
    v.push(105u8);
    v.push(114u8);
    v.push(111u8);
    proof {
        assert(v@ =~= cairo_ext());
    }
    v
}

/// The extension of the produced artifact: `"sierra"` as bytes.
pub open spec fn sierra_ext() -> Seq<u8> {
    seq![115u8, 105u8, 101u8, 114u8, 114u8, 97u8]
}

/// Executable copy of `sierra_ext`: `"sierra"` as bytes.
pub fn sierra_ext_bytes() -> (v: Vec<u8>)
    ensures
        v@ == sierra_ext(),
{
    let mut v: Vec<u8> = Vec::new();
    v.push(115u8);
    v.push(105u8);
    v.push(101u8);
    v.push(114u8);
    v.push(114u8);
    v.push(97u8);
    proof {
        assert(v@ =~= sierra_ext());
    }
    v
}

/// The path separator used when directories are joined: `"/"` as bytes.
pub open spec fn path_sep() -> Seq<u8> {
    seq![47u8]
}

/// Executable copy of `path_sep`: `"/"` as bytes.
pub fn path_sep_bytes() -> (v: Vec<u8>)
    ensures
        v@ == path_sep(),
{
    let mut v: Vec<u8> = Vec::new();
    v.push(47u8);
    proof {
        assert(v@ =~= path_sep());
    }
    v
}

/// Message of a submission whose path could not be read: `"File path not found"` as bytes.
pub open spec fn msg_path_not_found() -> Seq<u8> {
    seq![70u8, 105u8, 108u8, 101u8, 32u8, 112u8, 97u8, 116u8, 104u8, 32u8, 110u8, 111u8, 116u8, 32u8, 102u8, 111u8, 117u8, 110u8, 100u8]
}

/// Executable copy of `msg_path_not_found`: `"File path not found"` as bytes.
pub fn msg_path_not_found_bytes() -> (v: Vec<u8>)
    ensures
        v@ == msg_path_not_found(),
{
    let mut v: Vec<u8> = Vec::new();
    v.push(70u8);
    v.push(105u8);
    v.push(108u8);
    v.push(101u8);
    v.push(32u8);
    v.push(112u8);
    v.push(97u8);
    v.push(116u8);
    v.push(104u8);
    v.push(32u8);
    v.push(110u8);
    v.push(111u8);
    v.push(116u8);
    v.push(32u8);
    v.push(102u8);
    v.push(111u8);
    v.push(117u8);
    v.push(110u8);
    v.push(100u8);
    proof {
        assert(v@ =~= msg_path_not_found());
    }
    v
}

/// Message of a submission with the wrong extension: `"File extension not supported"` as bytes.
pub open spec fn msg_ext_not_supported() -> Seq<u8> {
    seq![70u8, 105u8, 108u8, 101u8, 32u8, 101u8, 120u8, 116u8, 101u8, 110u8, 115u8, 105u8, 111u8, 110u8, 32u8, 110u8, 111u8, 116u8, 32u8, 115u8, 117u8, 112u8, 112u8, 111u8, 114u8, 116u8, 101u8, 100u8]
}

/// Executable copy of `msg_ext_not_supported`: `"File extension not supported"` as bytes.
pub fn msg_ext_not_supported_bytes() -> (v: Vec<u8>)
    ensures
        v@ == msg_ext_not_supported(),
{
    let mut v: Vec<u8> = Vec::new();
    v.push(70u8);
    v.push(105u8);
    v.push(108u8);
    v.push(101u8);
    v.push(32u8);
    v.push(101u8);
    v.push(120u8);
    v.push(116u8);
    v.push(101u8);
    v.push(110u8);
    v.push(115u8);
    v.push(105u8);
    v.push(111u8);
    v.push(110u8);
    v.push(32u8);
    v.push(110u8);
    v.push(111u8);
    v.push(116u8);
    v.push(32u8);
    v.push(115u8);
    v.push(117u8);
    v.push(112u8);
    v.push(112u8);
    v.push(111u8);
    v.push(114u8);
    v.push(116u8);
    v.push(101u8);
    v.push(100u8);
    proof {
        assert(v@ =~= msg_ext_not_supported());
    }
    v
}

/// Head of the message of a missing toolchain version: `"Cairo compiler with version "` as bytes.
pub open spec fn msg_toolchain_pre() -> Seq<u8> {
    seq![67u8, 97u8, 105u8, 114u8, 111u8, 32u8, 99u8, 111u8, 109u8, 112u8, 105u8, 108u8, 101u8, 114u8, 32u8, 119u8, 105u8, 116u8, 104u8, 32u8, 118u8, 101u8, 114u8, 115u8, 105u8, 111u8, 110u8, 32u8]
}

/// Executable copy of `msg_toolchain_pre`: `"Cairo compiler with version "` as bytes.
pub fn msg_toolchain_pre_bytes() -> (v: Vec<u8>)
    ensures
        v@ == msg_toolchain_pre(),
{
    let mut v: Vec<u8> = Vec::new();
    v.push(67u8);
    v.push(97u8);
    v.push(105u8);
    v.push(114u8);
    v.push(111u8);
    v.push(32u8);
    v.push(99u8);
    v.push(111u8);
    v.push(109u8);
    v.push(112u8);
    v.push(105u8);
    v.push(108u8);
    v.push(101u8);
    v.push(114u8);
    v.push(32u8);
    v.push(119u8);
    v.push(105u8);
    v.push(116u8);
    v.push(104u8);
    v.push(32u8);
    v.push(118u8);
    v.push(101u8);
    v.push(114u8);
    v.push(115u8);
    v.push(105u8);
    v.push(111u8);
    v.push(110u8);
    v.push(32u8);
    proof {
        assert(v@ =~= msg_toolchain_pre());
    }
    v
}

/// Tail of the message of a missing toolchain version: `" not found"` as bytes.
pub open spec fn msg_toolchain_post() -> Seq<u8> {
    seq![32u8, 110u8, 111u8, 116u8, 32u8, 102u8, 111u8, 117u8, 110u8, 100u8]
}

/// Executable copy of `msg_toolchain_post`: `" not found"` as bytes.
pub fn msg_toolchain_post_bytes() -> (v: Vec<u8>)
    ensures
        v@ == msg_toolchain_post(),
{
    let mut v: Vec<u8> = Vec::new();
    v.push(32u8);
    v.push(110u8);
    v.push(111u8);
    v.push(116u8);
    v.push(32u8);
    v.push(102u8);
    v.push(111u8);
    v.push(117u8);
    v.push(110u8);
    v.push(100u8);
    proof {
        assert(v@ =~= msg_toolchain_post());
    }
    v
}

/// Head of the message of a toolchain that could not be started: `"Failed to execute starknet-compile: "` as bytes.
pub open spec fn msg_spawn_failed() -> Seq<u8> {
    seq![70u8, 97u8, 105u8, 108u8, 101u8, 100u8, 32u8, 116u8, 111u8, 32u8, 101u8, 120u8, 101u8, 99u8, 117u8, 116u8, 101u8, 32u8, 115u8, 116u8, 97u8, 114u8, 107u8, 110u8, 101u8, 116u8, 45u8, 99u8, 111u8, 109u8, 112u8, 105u8, 108u8, 101u8, 58u8, 32u8]
}

/// Executable copy of `msg_spawn_failed`: `"Failed to execute starknet-compile: "` as bytes.
pub fn msg_spawn_failed_bytes() -> (v: Vec<u8>)
    ensures
        v@ == msg_spawn_failed(),
{
    let mut v: Vec<u8> = Vec::new();
    v.push(70u8);
    v.push(97u8);
    v.push(105u8);
    v.push(108u8);
    v.push(101u8);
    v.push(100u8);
    v.push(32u8);
    v.push(116u8);
    v.push(111u8);
    v.push(32u8);
    v.push(101u8);
    v.push(120u8);
    v.push(101u8);
    v.push(99u8);
    v.push(117u8);
    v.push(116u8);
    v.push(101u8);
    v.push(32u8);
    v.push(115u8);
    v.push(116u8);
    v.push(97u8);
    v.push(114u8);
    v.push(107u8);
    v.push(110u8);
    v.push(101u8);
    v.push(116u8);
    v.push(45u8);
    v.push(99u8);
    v.push(111u8);
    v.push(109u8);
    v.push(112u8);
    v.push(105u8);
    v.push(108u8);
    v.push(101u8);
    v.push(58u8);
    v.push(32u8);
    proof {
        assert(v@ =~= msg_spawn_failed());
    }
    v
}

/// Message used when the captured diagnostic text is not UTF-8: `"Compiler diagnostics were not valid UTF-8"` as bytes.
pub open spec fn msg_bad_diagnostics() -> Seq<u8> {
    seq![67u8, 111u8, 109u8, 112u8, 105u8, 108u8, 101u8, 114u8, 32u8, 100u8, 105u8, 97u8, 103u8, 110u8, 111u8, 115u8, 116u8, 105u8, 99u8, 115u8, 32u8, 119u8, 101u8, 114u8, 101u8, 32u8, 110u8, 111u8, 116u8, 32u8, 118u8, 97u8, 108u8, 105u8, 100u8, 32u8, 85u8, 84u8, 70u8, 45u8, 56u8]
}

/// Executable copy of `msg_bad_diagnostics`: `"Compiler diagnostics were not valid UTF-8"` as bytes.
pub fn msg_bad_diagnostics_bytes() -> (v: Vec<u8>)
    ensures
        v@ == msg_bad_diagnostics(),
{
    let mut v: Vec<u8> = Vec::new();
    v.push(67u8);
    v.push(111u8);
    v.push(109u8);
    v.push(112u8);
    v.push(105u8);
    v.push(108u8);
    v.push(101u8);
    v.push(114u8);
    v.push(32u8);
    v.push(100u8);
    v.push(105u8);
    v.push(97u8);
    v.push(103u8);
    v.push(110u8);
    v.push(111u8);
    v.push(115u8);
    v.push(116u8);
    v.push(105u8);
    v.push(99u8);
    v.push(115u8);
    v.push(32u8);
    v.push(119u8);
    v.push(101u8);
    v.push(114u8);
    v.push(101u8);
    v.push(32u8);
    v.push(110u8);
    v.push(111u8);
    v.push(116u8);
    v.push(32u8);
    v.push(118u8);
    v.push(97u8);
    v.push(108u8);
    v.push(105u8);
    v.push(100u8);
    v.push(32u8);
    v.push(85u8);
    v.push(84u8);
    v.push(70u8);
    v.push(45u8);
    v.push(56u8);
    proof {
        assert(v@ =~= msg_bad_diagnostics());
    }
    v
}

} // verus!
