//! Reading the kernel-exposed per-device metadata files.
//!
//! The descriptor files consulted here are a handful of bytes each. What
//! they hold depends on the machine, so the wrappers promise nothing of the
//! data; the callers state what holds of every outcome.

use vstd::prelude::*;

verus! {

/// Relies on nix::fcntl::open with O_RDONLY | O_CLOEXEC: opens the file for
/// reading and returns its descriptor, which open(2) documents as
/// non-negative. Whether it succeeds depends on what is on disk.
#[verifier::external_body]
fn open_readonly(path: &str) -> (r: Option<i32>)
    ensures
        r matches Some(fd) ==> fd >= 0,
{
    nix::fcntl::open(
        path,
        nix::fcntl::OFlag::O_RDONLY | nix::fcntl::OFlag::O_CLOEXEC,
        nix::sys::stat::Mode::empty(),
    ).ok()
}

/// Relies on nix::unistd::read: reads at most one small buffer from the
/// descriptor. read(2) documents that no more than the buffer's length is
/// read, and that an empty result means end of file.
#[verifier::external_body]
fn read_chunk(fd: i32) -> (r: Option<Vec<u8>>)
    ensures
        r matches Some(c) ==> c@.len() <= 256,
{
    let mut buf = [0u8; 256];
    match nix::unistd::read(fd, &mut buf) {
        Ok(n) => Some(buf[..n].to_vec()),
        Err(_) => None,
    }
}

/// Relies on nix::unistd::close: releases the descriptor. Nothing the
/// library tracks changes either way, so the result is dropped.
#[verifier::external_body]
fn close_fd(fd: i32) {
    let _ = nix::unistd::close(fd);
}

/// Reads a whole file into memory. Returns `None` when the file cannot be
/// opened or a read fails. The contents depend on what is on disk, so the
/// contract promises nothing of them; `identifier_from_descriptor` takes
/// the bytes from here and is exact about what it does with them.
pub fn read_file_bytes(path: &str) -> (r: Option<Vec<u8>>) {
    let fd = match open_readonly(path) {
        Some(fd) => fd,
        None => {
            return None;
        },
    };
    let mut data: Vec<u8> = Vec::new();
    let mut ok: bool = false;
    let mut rounds: usize = 0;
    // The files read here hold a few bytes; one that does not end within
    // the cap is treated like one that cannot be read.
    while rounds < 64
        decreases 64 - rounds,
    {
        match read_chunk(fd) {
            None => {
                break;
            },
            Some(chunk) => {
                if chunk.len() == 0 {
                    ok = true;
                    break;
                }
                let mut tail = chunk;
                data.append(&mut tail);
            },
        }
        rounds = rounds + 1;
    }
    close_fd(fd);
    if ok {
        Some(data)
    } else {
        None
    }
}

} // verus!
