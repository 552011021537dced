//! The boot sector: 512 bytes that wrap the parameter block between the jump
//! instruction and OEM name before it and the boot code and signature after.

use vstd::prelude::*;
use crate::bpb::{BiosParameterBlock, EXTENDED_SIGNATURE, push_if, zeros};
use crate::codec::lemma_extend_run;
use crate::endian::get_array;
use crate::fat_type::{FatError, FatWarning};

verus! {

/// Length in bytes of a boot sector.
pub const BOOT_SECTOR_LEN: usize = 512;

/// Offset of the parameter block in the sector.
pub const BPB_OFFSET: usize = 11;

/// Offset of the signature in the sector.
pub const SIGNATURE_OFFSET: usize = 510;

/// Room for boot code after the short form of the parameter block.
pub const BOOT_CODE_LEN: usize = 448;

/// Room for boot code after the extended form of the parameter block.
pub const BOOT_CODE_LEN_FAT32: usize = 420;

/// The two bytes that end every boot sector.
pub const BOOT_SIGNATURE: [u8; 2] = [0x55, 0xAA];

/// The first sector of a volume.
#[derive(Clone, Copy, Debug, PartialEq, Eq)]
pub struct BootSector {
    pub bootjmp: [u8; 3],
    pub oem_name: [u8; 8],
    pub bpb: BiosParameterBlock,
    /// Of these bytes the sector of a FAT32 volume stores the first 420.
    pub boot_code: [u8; 448],
    pub boot_sig: [u8; 2],
}

impl BootSector {
    /// Number of bytes of boot code that the sector stores.
    pub open spec fn spec_boot_code_len(&self) -> int {
        if self.bpb.spec_is_fat32() {
            BOOT_CODE_LEN_FAT32 as int
        } else {
            BOOT_CODE_LEN as int
        }
    }

    /// What a sector holds where it was decoded or built by formatting: a
    /// parameter block of that kind, and zeros where the sector stores no
    /// boot code.
    pub open spec fn wf(&self) -> bool {
        &&& self.bpb.wf()
        &&& forall|i: int| self.spec_boot_code_len() <= i < 448 ==> self.boot_code@[i] == 0
    }

    /// The 512 bytes of the sector.
    pub open spec fn spec_encode(&self) -> Seq<u8> {
        self.bpb.spec_put(self.bootjmp@.add(self.oem_name@)).add(
            self.boot_code@.subrange(0, self.spec_boot_code_len()),
        ).add(self.boot_sig@)
    }

    /// `b` is the sector that `bytes` begins with.
    pub open spec fn decodes_to(bytes: Seq<u8>, b: BootSector) -> bool {
        let code = BPB_OFFSET + b.bpb.spec_encoded_len();
        &&& b.bootjmp@ == bytes.subrange(0, 3)
        &&& b.oem_name@ == bytes.subrange(3, 11)
        &&& BiosParameterBlock::decodes_at(bytes, 11, b.bpb)
        &&& b.boot_code@.subrange(0, b.spec_boot_code_len()) == bytes.subrange(code, 510)
        &&& forall|i: int| b.spec_boot_code_len() <= i < 448 ==> b.boot_code@[i] == 0
        &&& b.boot_sig@ == bytes.subrange(510, 512)
    }

    /// The error of the sector, if it has one: a signature other than
    /// `0x55 0xAA`, or else the error of its parameter block.
    pub open spec fn spec_error(&self) -> Option<FatError> {
        if self.boot_sig@ != BOOT_SIGNATURE@ {
            Some(FatError::InvalidSignature)
        } else {
            self.bpb.spec_error()
        }
    }

    /// The warnings that the sector earns: a jump instruction that starts
    /// with neither `0xEB` nor `0xE9`, then those of its parameter block.
    pub open spec fn spec_warnings(&self) -> Seq<FatWarning> {
        self.bpb.spec_warnings_after(
            push_if(
                Seq::empty(),
                self.bootjmp@[0] != 0xEB && self.bootjmp@[0] != 0xE9,
                FatWarning::UnknownJumpOpcode,
            ),
        )
    }

    /// Reads the sector that `bytes` begins with. It fails where `bytes` has
    /// fewer than 512 bytes, and only there.
    pub fn decode(bytes: &[u8]) -> (r: Result<BootSector, FatError>)
        ensures
            match r {
                Ok(b) => bytes@.len() >= 512 && Self::decodes_to(bytes@, b) && b.wf(),
                Err(e) => e == FatError::UnexpectedEof && bytes@.len() < 512,
            },
    {
        if bytes.len() < BOOT_SECTOR_LEN {
            return Err(FatError::UnexpectedEof);
        }
        let bootjmp: [u8; 3] = get_array::<3>(bytes, 0);
        let oem_name: [u8; 8] = get_array::<8>(bytes, 3);
        let bpb = match BiosParameterBlock::decode_at(bytes, BPB_OFFSET) {
            Ok(bpb) => bpb,
            Err(e) => {
                return Err(e);
            },
        };
        let code: usize = BPB_OFFSET + bpb.encoded_len();
        let n: usize = SIGNATURE_OFFSET - code;
        let mut boot_code = [0u8; 448];
        let mut i: usize = 0;
        while i < n
            invariant
                i <= n <= 448,
                code + n == 510,
                bytes.len() >= 512,
                forall|j: int| 0 <= j < i ==> boot_code@[j] == bytes@[code + j],
                forall|j: int| i <= j < 448 ==> boot_code@[j] == 0,
            decreases n - i,
        {
            boot_code[i] = bytes[code + i];
            i += 1;
        }
        let boot_sig: [u8; 2] = get_array::<2>(bytes, SIGNATURE_OFFSET);
        let b = BootSector { bootjmp, oem_name, bpb, boot_code, boot_sig };
        assert(b.boot_code@.subrange(0, b.spec_boot_code_len()) =~= bytes@.subrange(
            code as int,
            510,
        ));
        Ok(b)
    }

    /// The 512 bytes of the sector. They give the sector back where it holds
    /// nothing that they do not store.
    pub fn encode(&self) -> (r: Vec<u8>)
        ensures
            r@ == self.spec_encode(),
            r@.len() == 512,
            self.wf() ==> Self::decodes_to(r@, *self),
    {
        let mut out: Vec<u8> = Vec::new();
        out.extend_from_slice(self.bootjmp.as_slice());
        out.extend_from_slice(self.oem_name.as_slice());
        self.bpb.encode_into(&mut out);
        let n: usize = if self.bpb.is_fat32() { BOOT_CODE_LEN_FAT32 } else { BOOT_CODE_LEN };
        out.extend_from_slice(vstd::slice::slice_subrange(self.boot_code.as_slice(), 0, n));
        out.extend_from_slice(self.boot_sig.as_slice());
        proof {
            assert(out@ == self.spec_encode());
            self.lemma_encode_decodes();
        }
        out
    }

    /// Checks the signature, then the parameter block. The first failing
    /// check gives the error; a sector that passes them all gives its
    /// warnings, which change nothing else.
    pub fn validate(&self) -> (r: Result<Vec<FatWarning>, FatError>)
        ensures
            match r {
                Ok(w) => self.spec_error() is None && w@ == self.spec_warnings(),
                Err(e) => self.spec_error() == Some(e),
            },
    {
        let mut warnings: Vec<FatWarning> = Vec::new();
        if self.boot_sig[0] != 0x55 || self.boot_sig[1] != 0xAA {
            assert(self.boot_sig@[0] != BOOT_SIGNATURE@[0] || self.boot_sig@[1]
                != BOOT_SIGNATURE@[1]);
            return Err(FatError::InvalidSignature);
        }
        assert(self.boot_sig@ =~= BOOT_SIGNATURE@);
        if self.bootjmp[0] != 0xEB && self.bootjmp[0] != 0xE9 {
            warnings.push(FatWarning::UnknownJumpOpcode);
        }
        match self.bpb.validate_into(&mut warnings) {
            Ok(()) => Ok(warnings),
            Err(e) => Err(e),
        }
    }

    /// Decoding is a function: 512 bytes are the bytes of at most one sector.
    pub proof fn lemma_decode_unique(bytes: Seq<u8>, x: BootSector, y: BootSector)
        requires
            bytes.len() >= 512,
            Self::decodes_to(bytes, x),
            Self::decodes_to(bytes, y),
        ensures
            y == x,
    {
        BiosParameterBlock::lemma_decode_unique(bytes, 11, x.bpb, y.bpb);
        let n = x.spec_boot_code_len();
        assert forall|i: int| 0 <= i < 448 implies x.boot_code@[i] == y.boot_code@[i] by {
            if i < n {
                assert(x.boot_code@.subrange(0, n)[i] == y.boot_code@.subrange(0, n)[i]);
            }
        }
        assert(y.bootjmp =~= x.bootjmp);
        assert(y.oem_name =~= x.oem_name);
        assert(y.boot_code =~= x.boot_code);
        assert(y.boot_sig =~= x.boot_sig);
    }

    /// The bytes of a sector are 512, and give the sector back where it holds
    /// nothing that the bytes do not store.
    pub proof fn lemma_encode_decodes(&self)
        ensures
            self.spec_encode().len() == 512,
            self.wf() ==> Self::decodes_to(self.spec_encode(), *self),
    {
        let prefix = self.bootjmp@.add(self.oem_name@);
        let p = self.bpb.spec_put(prefix);
        let n = self.spec_boot_code_len();
        let q = p.add(self.boot_code@.subrange(0, n));
        let e = q.add(self.boot_sig@);
        let code = 11 + self.bpb.spec_encoded_len();
        assert(prefix.len() == 11);
        self.bpb.lemma_put_decodes(prefix);
        assert(self.boot_code@.subrange(0, n).len() == n);
        assert(q.len() == 510);
        assert(e.len() == 512);
        assert forall|i: int| 0 <= i < p.len() implies e[i] == p[i] by {
            assert(q[i] == p[i]);
        }
        assert(e.subrange(0, 3) =~= self.bootjmp@);
        assert(e.subrange(3, 11) =~= self.oem_name@);
        assert(e.subrange(code as int, 510) =~= self.boot_code@.subrange(0, n));
        assert(e.subrange(510, 512) =~= self.boot_sig@);
        if self.wf() {
            BiosParameterBlock::lemma_decodes_prefix(p, e, 11, self.bpb);
        }
    }

    /// Round trip from bytes. A sector decoded with the extended signature
    /// `0x29` in its parameter block is encoded to the 512 bytes that it was
    /// decoded from.
    pub proof fn lemma_encode_decode(bytes: Seq<u8>, b: BootSector)
        requires
            bytes.len() >= 512,
            Self::decodes_to(bytes, b),
            b.bpb.ext_sig == EXTENDED_SIGNATURE,
        ensures
            b.spec_encode() == bytes.subrange(0, 512),
    {
        let code = 11 + b.bpb.spec_encoded_len();
        lemma_extend_run(bytes, 0, 3);
        assert(bytes.subrange(0, 0).add(bytes.subrange(0, 3)) =~= bytes.subrange(0, 3));
        lemma_extend_run(bytes, 3, 8);
        BiosParameterBlock::lemma_encode_decode(bytes, 11, b.bpb);
        lemma_extend_run(bytes, code as int, b.spec_boot_code_len());
        lemma_extend_run(bytes, 510, 2);
    }

    /// Round trip. A sector that holds nothing that its bytes do not store
    /// gives, encoded and then decoded, the same sector.
    pub proof fn lemma_decode_encode(x: BootSector, y: BootSector)
        requires
            x.wf(),
            Self::decodes_to(x.spec_encode(), y),
        ensures
            y == x,
    {
        x.lemma_encode_decodes();
        Self::lemma_decode_unique(x.spec_encode(), x, y);
    }
}

impl Default for BootSector {
    /// A sector of zeros.
    fn default() -> (r: BootSector)
        ensures
            r.bootjmp@ == zeros(3),
            r.oem_name@ == zeros(8),
            r.bpb.zeroed(),
            r.boot_code@ == zeros(448),
            r.boot_sig@ == zeros(2),
    {
        let r = BootSector {
            bootjmp: [0u8; 3],
            oem_name: [0u8; 8],
            bpb: BiosParameterBlock::default(),
            boot_code: [0u8; 448],
            boot_sig: [0u8; 2],
        };
        assert(r.bootjmp@ =~= zeros(3));
        assert(r.oem_name@ =~= zeros(8));
        assert(r.boot_code@ =~= zeros(448));
        assert(r.boot_sig@ =~= zeros(2));
        r
    }
}

} // verus!
