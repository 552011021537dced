//! Byte layout of the parameter block. All numbers are little-endian. The
//! short form is the 25-byte header and the 26-byte tail; the extended form
//! has 28 bytes between them.

use vstd::prelude::*;
use crate::bpb::{BiosParameterBlock, EXTENDED_BPB_LEN, EXTENDED_SIGNATURE, SHORT_BPB_LEN, zeros};
use crate::endian::{get_array, get_u16, get_u32, le16_at, le16_bytes, le32_at, le32_bytes, put_u16, put_u32};
use crate::fat_type::FatError;

verus! {

/// Two bytes appended to `s` stand for the number they were made from, and
/// leave `s` as it was.
pub proof fn lemma_add_le16(s: Seq<u8>, v: u16)
    ensures
        s.add(le16_bytes(v)).len() == s.len() + 2,
        le16_at(s.add(le16_bytes(v)), s.len() as int) == v,
        forall|i: int| 0 <= i < s.len() ==> s.add(le16_bytes(v))[i] == s[i],
{
}

/// Four bytes appended to `s` stand for the number they were made from, and
/// leave `s` as it was.
pub proof fn lemma_add_le32(s: Seq<u8>, v: u32)
    ensures
        s.add(le32_bytes(v)).len() == s.len() + 4,
        le32_at(s.add(le32_bytes(v)), s.len() as int) == v,
        forall|i: int| 0 <= i < s.len() ==> s.add(le32_bytes(v))[i] == s[i],
{
}

/// The bytes of the number read at `k` are the bytes at `k`.
pub proof fn lemma_extend_le16(bytes: Seq<u8>, k: int)
    requires
        0 <= k,
        k + 2 <= bytes.len(),
    ensures
        bytes.subrange(0, k).add(le16_bytes(le16_at(bytes, k))) == bytes.subrange(0, k + 2),
{
    assert(bytes.subrange(0, k).add(le16_bytes(le16_at(bytes, k))) =~= bytes.subrange(0, k + 2));
}

/// Four bytes are the digits to base 256 of the number they stand for.
pub proof fn lemma_le32_digits(b0: u8, b1: u8, b2: u8, b3: u8)
    ensures
        le32_bytes((b0 + 256 * b1 + 65536 * b2 + 16777216 * b3) as u32) == seq![b0, b1, b2, b3],
{
    let v = (b0 + 256 * b1 + 65536 * b2 + 16777216 * b3) as u32;
    assert(v % 256 == b0);
    assert(v / 256 == b1 + 256 * b2 + 65536 * b3);
    assert(v / 65536 == b2 + 256 * b3);
    assert(v / 16777216 == b3);
}

/// The bytes of the number read at `k` are the bytes at `k`.
pub proof fn lemma_extend_le32(bytes: Seq<u8>, k: int)
    requires
        0 <= k,
        k + 4 <= bytes.len(),
    ensures
        bytes.subrange(0, k).add(le32_bytes(le32_at(bytes, k))) == bytes.subrange(0, k + 4),
{
    lemma_le32_digits(bytes[k], bytes[k + 1], bytes[k + 2], bytes[k + 3]);
    let run = seq![bytes[k], bytes[k + 1], bytes[k + 2], bytes[k + 3]];
    assert(le32_bytes(le32_at(bytes, k)) == run);
    assert(bytes.subrange(0, k).add(run) =~= bytes.subrange(0, k + 4));
}

/// The bytes before `k` and the byte at `k` are the bytes before `k + 1`.
pub proof fn lemma_extend_byte(bytes: Seq<u8>, k: int)
    requires
        0 <= k < bytes.len(),
    ensures
        bytes.subrange(0, k).push(bytes[k]) == bytes.subrange(0, k + 1),
{
    assert(bytes.subrange(0, k).push(bytes[k]) =~= bytes.subrange(0, k + 1));
}

/// The bytes before `k` and the `n` bytes from `k` are the bytes before `k + n`.
pub proof fn lemma_extend_run(bytes: Seq<u8>, k: int, n: int)
    requires
        0 <= k,
        0 <= n,
        k + n <= bytes.len(),
    ensures
        bytes.subrange(0, k).add(bytes.subrange(k, k + n)) == bytes.subrange(0, k + n),
{
    assert(bytes.subrange(0, k).add(bytes.subrange(k, k + n)) =~= bytes.subrange(0, k + n));
}

impl BiosParameterBlock {
    /// `s` followed by the 25 bytes of the header.
    pub open spec fn spec_put_header(&self, s: Seq<u8>) -> Seq<u8> {
        s.add(le16_bytes(self.bytes_per_sector)).push(self.sectors_per_cluster).add(
            le16_bytes(self.reserved_sectors),
        ).push(self.fats).add(le16_bytes(self.root_entries)).add(
            le16_bytes(self.total_sectors_16),
        ).push(self.media).add(le16_bytes(self.sectors_per_fat_16)).add(
            le16_bytes(self.sectors_per_track),
        ).add(le16_bytes(self.heads)).add(le32_bytes(self.hidden_sectors)).add(
            le32_bytes(self.total_sectors_32),
        )
    }

    /// `s` followed by the 28 bytes that only the extended form has.
    pub open spec fn spec_put_extended(&self, s: Seq<u8>) -> Seq<u8> {
        s.add(le32_bytes(self.sectors_per_fat_32)).add(le16_bytes(self.extended_flags)).add(
            le16_bytes(self.fs_version),
        ).add(le32_bytes(self.root_dir_first_cluster)).add(le16_bytes(self.fs_info_sector)).add(
            le16_bytes(self.backup_boot_sector),
        ).add(self.reserved_0@)
    }

    /// `s` followed by the 26 bytes of the tail.
    pub open spec fn spec_put_tail(&self, s: Seq<u8>) -> Seq<u8> {
        s.push(self.drive_num).push(self.reserved_1).push(self.ext_sig).add(
            le32_bytes(self.volume_id),
        ).add(self.volume_label@).add(self.fs_type_label@)
    }

    /// `s` followed by the bytes of the block: header, the extended fields
    /// where the block has the extended form, tail.
    pub open spec fn spec_put(&self, s: Seq<u8>) -> Seq<u8> {
        let header = self.spec_put_header(s);
        if self.spec_is_fat32() {
            self.spec_put_tail(self.spec_put_extended(header))
        } else {
            self.spec_put_tail(header)
        }
    }

    /// The bytes of the block.
    pub open spec fn spec_encode(&self) -> Seq<u8> {
        self.spec_put(Seq::empty())
    }

    /// Number of bytes of the block in its form.
    pub open spec fn spec_encoded_len(&self) -> nat {
        if self.spec_is_fat32() {
            EXTENDED_BPB_LEN as nat
        } else {
            SHORT_BPB_LEN as nat
        }
    }

    /// A whole block stands at offset `at` of `bytes`: the short form is
    /// there, and the extended form where the 16-bit table size, at offset 11
    /// of the block, is zero.
    pub open spec fn spec_decodable_at(bytes: Seq<u8>, at: int) -> bool {
        &&& 0 <= at
        &&& bytes.len() >= at + SHORT_BPB_LEN
        &&& le16_at(bytes, at + 11) == 0 ==> bytes.len() >= at + EXTENDED_BPB_LEN
    }

    /// `bytes` begins with a whole block.
    pub open spec fn spec_decodable(bytes: Seq<u8>) -> bool {
        Self::spec_decodable_at(bytes, 0)
    }

    /// The tail of `b` is what stands at offset `t` of `bytes`: the fields
    /// after the extended signature are taken only where that is `0x29`, and
    /// are zero otherwise.
    pub open spec fn tail_decodes_at(bytes: Seq<u8>, t: int, b: BiosParameterBlock) -> bool {
        &&& b.drive_num == bytes[t]
        &&& b.reserved_1 == bytes[t + 1]
        &&& b.ext_sig == bytes[t + 2]
        &&& if b.ext_sig == EXTENDED_SIGNATURE {
            &&& b.volume_id == le32_at(bytes, t + 3)
            &&& b.volume_label@ == bytes.subrange(t + 7, t + 18)
            &&& b.fs_type_label@ == bytes.subrange(t + 18, t + 26)
        } else {
            &&& b.volume_id == 0
            &&& b.volume_label@ == zeros(11)
            &&& b.fs_type_label@ == zeros(8)
        }
    }

    /// `b` is the block that stands at offset `at` of `bytes`. The fields of
    /// the extended form are taken only where the 16-bit table size is zero,
    /// and are zero otherwise.
    pub open spec fn decodes_at(bytes: Seq<u8>, at: int, b: BiosParameterBlock) -> bool {
        &&& b.bytes_per_sector == le16_at(bytes, at)
        &&& b.sectors_per_cluster == bytes[at + 2]
        &&& b.reserved_sectors == le16_at(bytes, at + 3)
        &&& b.fats == bytes[at + 5]
        &&& b.root_entries == le16_at(bytes, at + 6)
        &&& b.total_sectors_16 == le16_at(bytes, at + 8)
        &&& b.media == bytes[at + 10]
        &&& b.sectors_per_fat_16 == le16_at(bytes, at + 11)
        &&& b.sectors_per_track == le16_at(bytes, at + 13)
        &&& b.heads == le16_at(bytes, at + 15)
        &&& b.hidden_sectors == le32_at(bytes, at + 17)
        &&& b.total_sectors_32 == le32_at(bytes, at + 21)
        &&& if b.spec_is_fat32() {
            &&& b.sectors_per_fat_32 == le32_at(bytes, at + 25)
            &&& b.extended_flags == le16_at(bytes, at + 29)
            &&& b.fs_version == le16_at(bytes, at + 31)
            &&& b.root_dir_first_cluster == le32_at(bytes, at + 33)
            &&& b.fs_info_sector == le16_at(bytes, at + 37)
            &&& b.backup_boot_sector == le16_at(bytes, at + 39)
            &&& b.reserved_0@ == bytes.subrange(at + 41, at + 53)
            &&& Self::tail_decodes_at(bytes, at + 53, b)
        } else {
            &&& b.sectors_per_fat_32 == 0
            &&& b.extended_flags == 0
            &&& b.fs_version == 0
            &&& b.root_dir_first_cluster == 0
            &&& b.fs_info_sector == 0
            &&& b.backup_boot_sector == 0
            &&& b.reserved_0@ == zeros(12)
            &&& Self::tail_decodes_at(bytes, at + 25, b)
        }
    }

    /// `b` is the block that `bytes` begins with.
    pub open spec fn decodes_to(bytes: Seq<u8>, b: BiosParameterBlock) -> bool {
        Self::decodes_at(bytes, 0, b)
    }

    /// Number of bytes of the block in its form.
    pub fn encoded_len(&self) -> (r: usize)
        ensures
            r == self.spec_encoded_len(),
    {
        if self.is_fat32() {
            EXTENDED_BPB_LEN
        } else {
            SHORT_BPB_LEN
        }
    }

    /// Appends the bytes of the block to `out`.
    pub fn encode_into(&self, out: &mut Vec<u8>)
        ensures
            final(out)@ == self.spec_put(old(out)@),
            final(out)@.len() == old(out)@.len() + self.spec_encoded_len(),
    {
        put_u16(out, self.bytes_per_sector);
        out.push(self.sectors_per_cluster);
        put_u16(out, self.reserved_sectors);
        out.push(self.fats);
        put_u16(out, self.root_entries);
        put_u16(out, self.total_sectors_16);
        out.push(self.media);
        put_u16(out, self.sectors_per_fat_16);
        put_u16(out, self.sectors_per_track);
        put_u16(out, self.heads);
        put_u32(out, self.hidden_sectors);
        put_u32(out, self.total_sectors_32);
        if self.is_fat32() {
            put_u32(out, self.sectors_per_fat_32);
            put_u16(out, self.extended_flags);
            put_u16(out, self.fs_version);
            put_u32(out, self.root_dir_first_cluster);
            put_u16(out, self.fs_info_sector);
            put_u16(out, self.backup_boot_sector);
            out.extend_from_slice(self.reserved_0.as_slice());
        }
        out.push(self.drive_num);
        out.push(self.reserved_1);
        out.push(self.ext_sig);
        put_u32(out, self.volume_id);
        out.extend_from_slice(self.volume_label.as_slice());
        out.extend_from_slice(self.fs_type_label.as_slice());
        proof {
            self.lemma_put_decodes(old(out)@);
        }
    }

    /// The bytes of the block. They can be decoded, and give the block back
    /// where it holds nothing outside its form.
    pub fn encode(&self) -> (r: Vec<u8>)
        ensures
            r@ == self.spec_encode(),
            r@.len() == self.spec_encoded_len(),
            Self::spec_decodable(r@),
            self.wf() ==> Self::decodes_to(r@, *self),
    {
        let mut out: Vec<u8> = Vec::new();
        self.encode_into(&mut out);
        proof {
            self.lemma_put_decodes(Seq::empty());
        }
        out
    }

    /// Reads the block that `bytes` begins with. It fails where `bytes` ends
    /// before the block does, and only there.
    pub fn decode(bytes: &[u8]) -> (r: Result<BiosParameterBlock, FatError>)
        ensures
            match r {
                Ok(b) => Self::spec_decodable(bytes@) && Self::decodes_to(bytes@, b) && b.wf(),
                Err(e) => e == FatError::UnexpectedEof && !Self::spec_decodable(bytes@),
            },
    {
        Self::decode_at(bytes, 0)
    }

    /// Reads the block that stands at offset `at` of `bytes`. It fails where
    /// `bytes` ends before the block does, and only there.
    pub fn decode_at(bytes: &[u8], at: usize) -> (r: Result<BiosParameterBlock, FatError>)
        ensures
            match r {
                Ok(b) => Self::spec_decodable_at(bytes@, at as int) && Self::decodes_at(
                    bytes@,
                    at as int,
                    b,
                ) && b.wf(),
                Err(e) => e == FatError::UnexpectedEof && !Self::spec_decodable_at(
                    bytes@,
                    at as int,
                ),
            },
    {
        if bytes.len() < at || bytes.len() - at < SHORT_BPB_LEN {
            return Err(FatError::UnexpectedEof);
        }
        let sectors_per_fat_16: u16 = get_u16(bytes, at + 11);
        let fat32 = sectors_per_fat_16 == 0;
        if fat32 && bytes.len() - at < EXTENDED_BPB_LEN {
            return Err(FatError::UnexpectedEof);
        }
        let t: usize = if fat32 { at + 53 } else { at + 25 };
        let ext_sig: u8 = bytes[t + 2];
        let labelled = ext_sig == EXTENDED_SIGNATURE;
        let reserved_0: [u8; 12] = if fat32 { get_array::<12>(bytes, at + 41) } else { [0u8; 12] };
        let volume_label: [u8; 11] = if labelled { get_array::<11>(bytes, t + 7) } else { [0u8; 11] };
        let fs_type_label: [u8; 8] = if labelled { get_array::<8>(bytes, t + 18) } else { [0u8; 8] };
        proof {
            assert(!fat32 ==> reserved_0@ =~= zeros(12));
            assert(!labelled ==> volume_label@ =~= zeros(11));
            assert(!labelled ==> fs_type_label@ =~= zeros(8));
        }
        let b = BiosParameterBlock {
            bytes_per_sector: get_u16(bytes, at),
            sectors_per_cluster: bytes[at + 2],
            reserved_sectors: get_u16(bytes, at + 3),
            fats: bytes[at + 5],
            root_entries: get_u16(bytes, at + 6),
            total_sectors_16: get_u16(bytes, at + 8),
            media: bytes[at + 10],
            sectors_per_fat_16,
            sectors_per_track: get_u16(bytes, at + 13),
            heads: get_u16(bytes, at + 15),
            hidden_sectors: get_u32(bytes, at + 17),
            total_sectors_32: get_u32(bytes, at + 21),
            sectors_per_fat_32: if fat32 { get_u32(bytes, at + 25) } else { 0 },
            extended_flags: if fat32 { get_u16(bytes, at + 29) } else { 0 },
            fs_version: if fat32 { get_u16(bytes, at + 31) } else { 0 },
            root_dir_first_cluster: if fat32 { get_u32(bytes, at + 33) } else { 0 },
            fs_info_sector: if fat32 { get_u16(bytes, at + 37) } else { 0 },
            backup_boot_sector: if fat32 { get_u16(bytes, at + 39) } else { 0 },
            reserved_0,
            drive_num: bytes[t],
            reserved_1: bytes[t + 1],
            ext_sig,
            volume_id: if labelled { get_u32(bytes, t + 3) } else { 0 },
            volume_label,
            fs_type_label,
        };
        Ok(b)
    }

    /// Decoding is a function: the bytes at an offset are the bytes of at
    /// most one block.
    pub proof fn lemma_decode_unique(
        bytes: Seq<u8>,
        at: int,
        x: BiosParameterBlock,
        y: BiosParameterBlock,
    )
        requires
            Self::decodes_at(bytes, at, x),
            Self::decodes_at(bytes, at, y),
        ensures
            y == x,
    {
        assert(y.reserved_0 =~= x.reserved_0);
        assert(y.volume_label =~= x.volume_label);
        assert(y.fs_type_label =~= x.fs_type_label);
    }

    /// What a block decodes from does not depend on the bytes after it.
    pub proof fn lemma_decodes_prefix(p: Seq<u8>, e: Seq<u8>, at: int, b: BiosParameterBlock)
        requires
            0 <= at,
            at + b.spec_encoded_len() <= p.len() <= e.len(),
            forall|i: int| 0 <= i < p.len() ==> e[i] == p[i],
            Self::decodes_at(p, at, b),
        ensures
            Self::decodes_at(e, at, b),
    {
        let t: int = if b.spec_is_fat32() { at + 53 } else { at + 25 };
        if b.spec_is_fat32() {
            assert(e.subrange(at + 41, at + 53) =~= p.subrange(at + 41, at + 53));
        }
        assert(e.subrange(t + 7, t + 18) =~= p.subrange(t + 7, t + 18));
        assert(e.subrange(t + 18, t + 26) =~= p.subrange(t + 18, t + 26));
    }

    /// Round trip. The bytes of any block can be decoded, and a block that
    /// holds nothing outside its form gives, encoded and then decoded, the
    /// same block.
    pub proof fn lemma_decode_encode(x: BiosParameterBlock, y: BiosParameterBlock)
        requires
            x.wf(),
            Self::decodes_to(x.spec_encode(), y),
        ensures
            Self::spec_decodable(x.spec_encode()),
            y == x,
    {
        x.lemma_put_decodes(Seq::empty());
        Self::lemma_decode_unique(x.spec_encode(), 0, x, y);
    }

    /// Round trip from bytes. A block decoded with the extended signature
    /// `0x29`, so that no field after it was dropped, is encoded to the
    /// bytes that it was decoded from.
    pub proof fn lemma_encode_decode(bytes: Seq<u8>, at: int, b: BiosParameterBlock)
        requires
            Self::spec_decodable_at(bytes, at),
            Self::decodes_at(bytes, at, b),
            b.ext_sig == EXTENDED_SIGNATURE,
        ensures
            b.spec_put(bytes.subrange(0, at)) == bytes.subrange(
                0,
                at + b.spec_encoded_len(),
            ),
    {
        lemma_extend_le16(bytes, at);
        lemma_extend_byte(bytes, at + 2);
        lemma_extend_le16(bytes, at + 3);
        lemma_extend_byte(bytes, at + 5);
        lemma_extend_le16(bytes, at + 6);
        lemma_extend_le16(bytes, at + 8);
        lemma_extend_byte(bytes, at + 10);
        lemma_extend_le16(bytes, at + 11);
        lemma_extend_le16(bytes, at + 13);
        lemma_extend_le16(bytes, at + 15);
        lemma_extend_le32(bytes, at + 17);
        lemma_extend_le32(bytes, at + 21);
        let h = b.spec_put_header(bytes.subrange(0, at));
        assert(h == bytes.subrange(0, at + 25));
        let t: int = if b.spec_is_fat32() { at + 53 } else { at + 25 };
        if b.spec_is_fat32() {
            lemma_extend_le32(bytes, at + 25);
            lemma_extend_le16(bytes, at + 29);
            lemma_extend_le16(bytes, at + 31);
            lemma_extend_le32(bytes, at + 33);
            lemma_extend_le16(bytes, at + 37);
            lemma_extend_le16(bytes, at + 39);
            lemma_extend_run(bytes, at + 41, 12);
            assert(b.spec_put_extended(h) == bytes.subrange(0, at + 53));
        }
        lemma_extend_byte(bytes, t);
        lemma_extend_byte(bytes, t + 1);
        lemma_extend_byte(bytes, t + 2);
        lemma_extend_le32(bytes, t + 3);
        lemma_extend_run(bytes, t + 7, 11);
        lemma_extend_run(bytes, t + 18, 8);
    }

    /// Where each field of the header stands, after whatever came before.
    pub proof fn lemma_header_layout(&self, s: Seq<u8>)
        ensures
            ({
                let h = self.spec_put_header(s);
                let n = s.len() as int;
                &&& h.len() == n + 25
                &&& forall|i: int| 0 <= i < n ==> h[i] == s[i]
                &&& le16_at(h, n) == self.bytes_per_sector
                &&& h[n + 2] == self.sectors_per_cluster
                &&& le16_at(h, n + 3) == self.reserved_sectors
                &&& h[n + 5] == self.fats
                &&& le16_at(h, n + 6) == self.root_entries
                &&& le16_at(h, n + 8) == self.total_sectors_16
                &&& h[n + 10] == self.media
                &&& le16_at(h, n + 11) == self.sectors_per_fat_16
                &&& le16_at(h, n + 13) == self.sectors_per_track
                &&& le16_at(h, n + 15) == self.heads
                &&& le32_at(h, n + 17) == self.hidden_sectors
                &&& le32_at(h, n + 21) == self.total_sectors_32
            }),
    {
        let s1 = s.add(le16_bytes(self.bytes_per_sector));
        let s2 = s1.push(self.sectors_per_cluster);
        let s3 = s2.add(le16_bytes(self.reserved_sectors));
        let s4 = s3.push(self.fats);
        let s5 = s4.add(le16_bytes(self.root_entries));
        let s6 = s5.add(le16_bytes(self.total_sectors_16));
        let s7 = s6.push(self.media);
        let s8 = s7.add(le16_bytes(self.sectors_per_fat_16));
        let s9 = s8.add(le16_bytes(self.sectors_per_track));
        let s10 = s9.add(le16_bytes(self.heads));
        let s11 = s10.add(le32_bytes(self.hidden_sectors));
        let h = s11.add(le32_bytes(self.total_sectors_32));
        lemma_add_le16(s, self.bytes_per_sector);
        lemma_add_le16(s2, self.reserved_sectors);
        lemma_add_le16(s4, self.root_entries);
        lemma_add_le16(s5, self.total_sectors_16);
        lemma_add_le16(s7, self.sectors_per_fat_16);
        lemma_add_le16(s8, self.sectors_per_track);
        lemma_add_le16(s9, self.heads);
        lemma_add_le32(s10, self.hidden_sectors);
        lemma_add_le32(s11, self.total_sectors_32);
        assert(h == self.spec_put_header(s));
    }

    /// Where each field of the extended form stands, after whatever came before.
    pub proof fn lemma_extended_layout(&self, s: Seq<u8>)
        ensures
            ({
                let h = self.spec_put_extended(s);
                let n = s.len() as int;
                &&& h.len() == n + 28
                &&& forall|i: int| 0 <= i < n ==> h[i] == s[i]
                &&& le32_at(h, n) == self.sectors_per_fat_32
                &&& le16_at(h, n + 4) == self.extended_flags
                &&& le16_at(h, n + 6) == self.fs_version
                &&& le32_at(h, n + 8) == self.root_dir_first_cluster
                &&& le16_at(h, n + 12) == self.fs_info_sector
                &&& le16_at(h, n + 14) == self.backup_boot_sector
                &&& h.subrange(n + 16, n + 28) == self.reserved_0@
            }),
    {
        let n = s.len() as int;
        let s1 = s.add(le32_bytes(self.sectors_per_fat_32));
        let s2 = s1.add(le16_bytes(self.extended_flags));
        let s3 = s2.add(le16_bytes(self.fs_version));
        let s4 = s3.add(le32_bytes(self.root_dir_first_cluster));
        let s5 = s4.add(le16_bytes(self.fs_info_sector));
        let s6 = s5.add(le16_bytes(self.backup_boot_sector));
        let h = s6.add(self.reserved_0@);
        lemma_add_le32(s, self.sectors_per_fat_32);
        lemma_add_le16(s1, self.extended_flags);
        lemma_add_le16(s2, self.fs_version);
        lemma_add_le32(s3, self.root_dir_first_cluster);
        lemma_add_le16(s4, self.fs_info_sector);
        lemma_add_le16(s5, self.backup_boot_sector);
        assert(s6.len() == n + 16);
        assert(self.reserved_0@.len() == 12);
        assert(h.len() == n + 28);
        assert forall|i: int| 0 <= i < n + 16 implies h[i] == s6[i] by {}
        assert(h.subrange(n + 16, n + 28) =~= self.reserved_0@);
        assert(h == self.spec_put_extended(s));
    }

    /// Where each field of the tail stands, after whatever came before.
    pub proof fn lemma_tail_layout(&self, s: Seq<u8>)
        ensures
            ({
                let h = self.spec_put_tail(s);
                let n = s.len() as int;
                &&& h.len() == n + 26
                &&& forall|i: int| 0 <= i < n ==> h[i] == s[i]
                &&& h[n] == self.drive_num
                &&& h[n + 1] == self.reserved_1
                &&& h[n + 2] == self.ext_sig
                &&& le32_at(h, n + 3) == self.volume_id
                &&& h.subrange(n + 7, n + 18) == self.volume_label@
                &&& h.subrange(n + 18, n + 26) == self.fs_type_label@
            }),
    {
        let n = s.len() as int;
        let s1 = s.push(self.drive_num);
        let s2 = s1.push(self.reserved_1);
        let s3 = s2.push(self.ext_sig);
        let s4 = s3.add(le32_bytes(self.volume_id));
        let s5 = s4.add(self.volume_label@);
        let h = s5.add(self.fs_type_label@);
        lemma_add_le32(s3, self.volume_id);
        assert(s4.len() == n + 7);
        assert(self.volume_label@.len() == 11);
        assert(self.fs_type_label@.len() == 8);
        assert(s5.len() == n + 18);
        assert forall|i: int| 0 <= i < n + 7 implies h[i] == s4[i] by {
            assert(s5[i] == s4[i]);
        }
        assert(h.subrange(n + 7, n + 18) =~= self.volume_label@);
        assert(h.subrange(n + 18, n + 26) =~= self.fs_type_label@);
        assert(h == self.spec_put_tail(s));
    }

    /// The bytes of a block, put after `s`, leave `s` as it was, are as many
    /// as the form of the block has, can be decoded where `s` ends, and give
    /// the block back where it holds nothing outside its form.
    pub proof fn lemma_put_decodes(&self, s: Seq<u8>)
        ensures
            self.spec_put(s).len() == s.len() + self.spec_encoded_len(),
            forall|i: int| 0 <= i < s.len() ==> self.spec_put(s)[i] == s[i],
            Self::spec_decodable_at(self.spec_put(s), s.len() as int),
            self.wf() ==> Self::decodes_at(self.spec_put(s), s.len() as int, *self),
    {
        let e = self.spec_put(s);
        let n = s.len() as int;
        let h = self.spec_put_header(s);
        self.lemma_header_layout(s);
        if self.spec_is_fat32() {
            let x = self.spec_put_extended(h);
            self.lemma_extended_layout(h);
            self.lemma_tail_layout(x);
            assert(e.subrange(n + 41, n + 53) =~= x.subrange(n + 41, n + 53));
        } else {
            self.lemma_tail_layout(h);
        }
    }
}

} // verus!
