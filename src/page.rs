use vstd::prelude::*;

verus! {

/// The page of `n` zero bytes.
pub open spec fn zeros(n: nat) -> Seq<u8> {
    Seq::new(n, |i: int| 0u8)
}

/// The end of a page, `(id + 1) * page_size`, fits in a `u64`.
pub proof fn lemma_page_end_fits(id: u32, page_size: u32)
    ensures
        0 <= (id as int) * (page_size as int) <= ((id as int) + 1) * (page_size as int),
        ((id as int) + 1) * (page_size as int) <= u64::MAX,
{
    assert(0 <= (id as int) * (page_size as int) <= ((id as int) + 1) * (page_size as int))
        by (nonlinear_arith);
    assert(((id as int) + 1) * (page_size as int) <= 0x1_0000_0000 * 0xffff_ffff) by (nonlinear_arith)
        requires
            id <= 0xffff_ffff,
            page_size <= 0xffff_ffff,
    ;
}

/// Offset of the four version bytes inside the header page.
pub const VERSION_OFFSET: usize = 32;

/// The version bytes this library writes and expects.
pub open spec fn database_version_spec() -> Seq<u8> {
    seq![0u8, 0u8, 0u8, 2u8]
}

/// The version bytes this library writes and expects.
pub fn database_version() -> (r: [u8; 4])
    ensures
        r@ == database_version_spec(),
{
    [0u8, 0u8, 0u8, 2u8]
}

/// A freshly initialised header page: zeros, with the version at offset 32.
pub open spec fn header_bytes(page_size: nat) -> Seq<u8> {
    Seq::new(
        page_size,
        |i: int|
            if 32 <= i < 36 {
                database_version_spec()[i - 32]
            } else {
                0u8
            },
    )
}

/// A fixed-width page image tagged with its id.
#[derive(Debug, PartialEq, Eq)]
pub struct RawPage {
    pub page_id: u32,
    pub data: Vec<u8>,
}

impl RawPage {
    /// A page of `page_size` zero bytes.
    pub fn new(page_id: u32, page_size: u32) -> (r: RawPage)
        ensures
            r.page_id == page_id,
            r.data@ == zeros(page_size as nat),
    {
        let mut data: Vec<u8> = Vec::new();
        let mut i: u32 = 0;
        while i < page_size
            invariant
                i <= page_size,
                data@ == zeros(i as nat),
            decreases page_size - i,
        {
            data.push(0u8);
            i = i + 1;
            assert(data@ =~= zeros(i as nat));
        }
        RawPage { page_id, data }
    }

    /// The header page (page 0) of a fresh store.
    pub fn init_header(page_size: u32) -> (r: RawPage)
        requires
            page_size >= 36,
        ensures
            r.page_id == 0,
            r.data@ == header_bytes(page_size as nat),
    {
        let mut page = RawPage::new(0, page_size);
        let version = database_version();
        let mut i: usize = 0;
        while i < 4
            invariant
                i <= 4,
                page.page_id == 0,
                page_size >= 36,
                page.data@.len() == page_size,
                version@ == database_version_spec(),
                forall|j: int|
                    0 <= j < page_size ==> page.data@[j] == (if 32 <= j < 32 + i {
                        database_version_spec()[j - 32]
                    } else {
                        0u8
                    }),
            decreases 4 - i,
        {
            page.data[VERSION_OFFSET + i] = version[i];
            i = i + 1;
        }
        assert(page.data@ =~= header_bytes(page_size as nat));
        page
    }
}

} // verus!
