//! Paths derived from the per-install magic name.

use vstd::prelude::*;
use crate::text::{ascii_bytes, copy_range, extend, lit};

verus! {

/// The magic name and the paths under `/dev` built from it.
pub struct MagicPaths {
    pub magic: Vec<u8>,
    /// `/dev/<magic>`: the working directory of this install.
    pub tmp_dir: Vec<u8>,
    /// `/dev/<magic>/module.prop`: the overlay shown over module.prop.
    pub tmp_prop: Vec<u8>,
}

pub open spec fn tmp_dir_spec(magic: Seq<u8>) -> Seq<u8> {
    lit("/dev/"@) + magic
}

pub open spec fn tmp_prop_spec(magic: Seq<u8>) -> Seq<u8> {
    tmp_dir_spec(magic) + lit("/module.prop"@)
}

/// Builds the paths from the contents of the magic file.
pub fn setup(magic: &[u8]) -> (r: MagicPaths)
    ensures
        r.magic@ == magic@,
        r.tmp_dir@ == tmp_dir_spec(magic@),
        r.tmp_prop@ == tmp_prop_spec(magic@),
{
    proof {
        reveal_strlit("/dev/");
        reveal_strlit("/module.prop");
    }
    let mut tmp_dir: Vec<u8> = Vec::new();
    extend(&mut tmp_dir, ascii_bytes("/dev/"));
    extend(&mut tmp_dir, magic);
    let mut tmp_prop = copy_range(tmp_dir.as_slice(), 0, tmp_dir.len());
    assert(tmp_prop@ =~= tmp_dir@);
    extend(&mut tmp_prop, ascii_bytes("/module.prop"));
    MagicPaths { magic: copy_range(magic, 0, magic.len()), tmp_dir, tmp_prop }
}

impl MagicPaths {
    /// The daemon's listening socket for its bitness, in the working
    /// directory.
    pub open spec fn socket_spec(&self, is64: bool) -> Seq<u8> {
        self.tmp_dir@ + if is64 {
            lit("/cp64.sock"@)
        } else {
            lit("/cp32.sock"@)
        }
    }

    pub fn daemon_socket(&self, is64: bool) -> (r: Vec<u8>)
        ensures
            r@ == self.socket_spec(is64),
    {
        proof {
            reveal_strlit("/cp64.sock");
            reveal_strlit("/cp32.sock");
        }
        let mut r = copy_range(self.tmp_dir.as_slice(), 0, self.tmp_dir.len());
        assert(r@ =~= self.tmp_dir@);
        if is64 {
            extend(&mut r, ascii_bytes("/cp64.sock"));
        } else {
            extend(&mut r, ascii_bytes("/cp32.sock"));
        }
        r
    }
}

} // verus!
