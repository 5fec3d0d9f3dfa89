//! The credential store: string items of a non-volatile storage partition,
//! addressed by namespace and key.
//!
//! The partition is kept as an image in memory; moving the image from and to
//! the flash chip is the caller's business.
//!
//! What the store holds is what can be read from it. A write or a deletion
//! reads the item back before it reports success, so that a success holds of
//! every partition, a damaged one too. That all other items stay as they are
//! is said of partitions in order only: of those that were opened blank and
//! have taken every write and deletion since.
//!
//! Every page in use carries a sequence number, and each page that is
//! started gets the next one. The partition's arithmetic on these numbers
//! has no room near the end of their range, so an image is opened only while
//! its numbers are small, and a store counts the pages that its writes may
//! have started and takes no write once the count is near the end.

use crate::structs::WmError;
use vstd::prelude::*;
use vstd::string::is_ascii_spec_bytes;

verus! {

/// Longest namespace or key, in characters.
pub const MAX_KEY_LEN: usize = 15;

/// Size of one page of a partition, in bytes.
pub const PAGE_SIZE: usize = 4096;

/// Most pages that a partition can have.
pub const MAX_PAGES: usize = 65535;

/// Largest sequence number that a page of an image may carry.
pub const IMAGE_SEQUENCE_MAX: u32 = 0x3fff_ffff;

/// Largest sequence number that a page can carry once an image is opened.
pub const OPENED_SEQUENCE_MAX: u32 = 0xbfff_ffff;

/// Largest sequence number with which a store still takes a write.
pub const WRITE_SEQUENCE_MAX: u32 = 0xffff_0000;

/// Most pages that one write starts.
pub const WRITE_STARTS: u32 = 2;

/// A namespace or key that the store accepts: at most 15 characters, each of
/// them ASCII and none of them NUL.
pub open spec fn valid_key(text: Seq<char>) -> bool {
    &&& text.len() <= MAX_KEY_LEN
    &&& forall|i: int| 0 <= i < text.len() ==> '\0' < #[trigger] text[i] <= '\u{7f}'
}

/// Whether the store accepts `text` as a namespace or key.
pub fn is_valid_key(text: &str) -> (r: bool)
    ensures
        r == valid_key(text@),
{
    if !text.is_ascii() {
        return false;
    }
    proof {
        is_ascii_spec_bytes(text);
    }
    let bytes = text.as_bytes();
    if bytes.len() > MAX_KEY_LEN {
        return false;
    }
    let mut i: usize = 0;
    while i < bytes.len()
        invariant
            i <= bytes@.len(),
            bytes@.len() == text@.len(),
            vstd::utf8::is_ascii_chars(text@),
            forall|j: int| 0 <= j < bytes@.len() ==> bytes@[j] == text@[j] as u8,
            forall|j: int| 0 <= j < i ==> '\0' < #[trigger] text@[j],
        decreases bytes@.len() - i,
    {
        if bytes[i] == 0 {
            assert(text@[i as int] == '\0');
            return false;
        }
        assert('\0' < text@[i as int]);
        i = i + 1;
    }
    true
}

/// A storage partition held in memory: an `esp_nvs::Nvs` on an
/// `esp_nvs::mem_flash::MemFlash`. What it holds is known only through the
/// names below.
#[verifier::external_body]
pub struct Partition {
    nvs: esp_nvs::Nvs<esp_nvs::mem_flash::MemFlash>,
}

/// The string items that can be read from a partition, by namespace and key:
/// an item is there exactly where reading it succeeds, and it is what the
/// reading gives.
pub uninterp spec fn nvs_strings(nvs: Partition) -> Map<(Seq<char>, Seq<char>), Seq<char>>;

/// Whether a partition is in order: its namespace entries differ in name and
/// in index, it holds nothing else but string items, every item lies under
/// one of its namespace entries, no namespace and key has two items, and
/// every page that is not in use is blank. A partition that was damaged may
/// open and not be in order.
pub uninterp spec fn nvs_in_order(nvs: Partition) -> bool;

/// The number of pages of a partition. It is what the partition was made
/// with and never changes.
pub uninterp spec fn nvs_pages(nvs: Partition) -> nat;

/// The largest sequence number among the pages of a partition that are in
/// use; 0 where none is.
pub uninterp spec fn nvs_top_sequence(nvs: Partition) -> nat;

/// Whether a partition takes the writing of `value` under a namespace and
/// key: whether `esp_nvs::Nvs::set::<&str>` succeeds on it.
pub uninterp spec fn nvs_takes(nvs: Partition, namespace: Seq<char>, key: Seq<char>, value: Seq<char>) -> bool;

/// Whether a partition takes the deletion of what lies under a namespace and
/// key: whether `esp_nvs::Nvs::delete` succeeds on it.
pub uninterp spec fn nvs_drops(nvs: Partition, namespace: Seq<char>, key: Seq<char>) -> bool;

/// Whether two contents hold the same under every key but `key`, whatever
/// the namespace, as far as the store accepts the namespace and the key.
pub open spec fn same_under_other_keys(
    after: Map<(Seq<char>, Seq<char>), Seq<char>>,
    before: Map<(Seq<char>, Seq<char>), Seq<char>>,
    key: Seq<char>,
) -> bool {
    forall|n: Seq<char>, k: Seq<char>|
        #![trigger after.contains_key((n, k))]
        #![trigger before.contains_key((n, k))]
        valid_key(n) && valid_key(k) && k != key ==> {
            &&& after.contains_key((n, k)) == before.contains_key((n, k))
            &&& after.contains_key((n, k)) ==> after[(n, k)] == before[(n, k)]
        }
}

/// The content of a partition without items.
pub open spec fn no_items() -> Map<(Seq<char>, Seq<char>), Seq<char>> {
    Map::empty()
}

/// Whether page `page` of an image was ever started: the first four bytes of
/// its header, which hold its state, are not blank.
pub open spec fn page_started(image: Seq<u8>, page: int) -> bool {
    let at = page * PAGE_SIZE;
    image[at] != 0xff || image[at + 1] != 0xff || image[at + 2] != 0xff || image[at + 3] != 0xff
}

/// Whether the sequence number of page `page` of an image is at most
/// `IMAGE_SEQUENCE_MAX`. The number stands in bytes 4 to 7 of the header,
/// lowest byte first.
pub open spec fn page_sequence_fits(image: Seq<u8>, page: int) -> bool {
    image[page * PAGE_SIZE + 7] < 0x40
}

/// Whether the sequence numbers of an image are small enough to open it:
/// every page that was started carries one of at most `IMAGE_SEQUENCE_MAX`.
pub open spec fn sequences_fit(image: Seq<u8>) -> bool {
    forall|page: int|
        0 <= page && (page + 1) * PAGE_SIZE <= image.len() && #[trigger] page_started(image, page)
            ==> page_sequence_fits(image, page)
}

/// Whether the sequence numbers of an image are small enough to open it.
pub fn image_sequences_fit(image: &Vec<u8>) -> (r: bool)
    ensures
        r == sequences_fit(image@),
{
    let mut page: usize = 0;
    while page < image.len() / PAGE_SIZE
        invariant
            page <= image@.len() / (PAGE_SIZE as nat),
            forall|p: int| 0 <= p < page && #[trigger] page_started(image@, p) ==> page_sequence_fits(image@, p),
        decreases image@.len() / (PAGE_SIZE as nat) - page,
    {
        let at = page * PAGE_SIZE;
        let started = image[at] != 0xff || image[at + 1] != 0xff || image[at + 2] != 0xff || image[at + 3] != 0xff;
        if started && image[at + 7] >= 0x40 {
            assert(page_started(image@, page as int));
            assert(!page_sequence_fits(image@, page as int));
            return false;
        }
        page = page + 1;
    }
    true
}

/// `esp_nvs::Nvs::new` on a fresh `esp_nvs::mem_flash::MemFlash` of `pages`
/// erased pages. It opens exactly where there is a page at all; the partition
/// then has these pages, none of them in use, holds no item and is in order.
#[verifier::external_body]
fn nvs_format(pages: usize) -> (r: Result<Partition, esp_nvs::error::Error>)
    requires
        pages <= MAX_PAGES,
    ensures
        r is Ok <==> pages >= 1,
        r matches Ok(nvs) ==> nvs_strings(nvs) == no_items(),
        r matches Ok(nvs) ==> nvs_in_order(nvs),
        r matches Ok(nvs) ==> nvs_pages(nvs) == pages,
        r matches Ok(nvs) ==> nvs_top_sequence(nvs) == 0,
{
    let flash = esp_nvs::mem_flash::MemFlash::new(pages);
    let size = flash.len();
    esp_nvs::Nvs::new(0, size, flash).map(|nvs| Partition { nvs })
}

/// The string items of the partition whose bytes are the image, by namespace
/// and key; `None` where the image does not open as a partition.
pub uninterp spec fn image_strings(image: Seq<u8>) -> Option<Map<(Seq<char>, Seq<char>), Seq<char>>>;

/// `esp_nvs::Nvs::new` on `esp_nvs::mem_flash::MemFlash::from_bytes(image)`.
/// Whether the partition opens and what can then be read from it depends on
/// the bytes of the image alone, and its pages are those of the image.
/// Nothing says that it is in order.
///
/// A page in use is one that was started, so the image's pages in use carry
/// no sequence number above `IMAGE_SEQUENCE_MAX`. Opening starts a page only
/// to finish a clean-up that was cut short, at most once for each page of
/// the image, and to rewrite a blob of an older format, at most 256 times
/// for each of the 126 entries of each page. With 65535 pages at most those
/// are fewer than 2^31 pages, each with the sequence number after the
/// largest, so that none passes `OPENED_SEQUENCE_MAX`. Without the bound on
/// the image the partition's choice of a page to clear could overflow.
#[verifier::external_body]
fn nvs_open(image: Vec<u8>) -> (r: Result<Partition, esp_nvs::error::Error>)
    requires
        image@.len() % (PAGE_SIZE as nat) == 0,
        sequences_fit(image@),
    ensures
        r matches Ok(nvs) ==> image_strings(image@) == Some(nvs_strings(nvs)),
        r is Err ==> image_strings(image@) is None,
        r matches Ok(nvs) ==> nvs_pages(nvs) * PAGE_SIZE == image@.len(),
        r matches Ok(nvs) ==> nvs_top_sequence(nvs) <= OPENED_SEQUENCE_MAX,
{
    let size = image.len();
    esp_nvs::Nvs::new(0, size, esp_nvs::mem_flash::MemFlash::from_bytes(image)).map(|nvs| Partition { nvs })
}

/// `esp_nvs::Nvs::into_inner` and `esp_nvs::mem_flash::MemFlash::into_inner`:
/// the bytes of the partition, which are its pages. Of a partition in order
/// the image opens to the same items, and its pages carry no sequence number
/// above the partition's largest.
#[verifier::external_body]
fn nvs_into_image(nvs: Partition) -> (r: Vec<u8>)
    ensures
        r@.len() == nvs_pages(nvs) * PAGE_SIZE,
        nvs_in_order(nvs) ==> image_strings(r@) == Some(nvs_strings(nvs)),
        nvs_in_order(nvs) && nvs_top_sequence(nvs) <= IMAGE_SEQUENCE_MAX ==> sequences_fit(r@),
{
    nvs.nvs.into_inner().into_inner()
}

/// `esp_nvs::Nvs::get::<String>`. What it gives depends on the partition, the
/// namespace and the key alone: a string that comes back is the item stored
/// under the namespace and key, a failure means that no string can be read
/// there, and reading writes nothing.
#[verifier::external_body]
fn nvs_get(nvs: &mut Partition, namespace: &str, key: &str) -> (r: Result<String, esp_nvs::error::Error>)
    requires
        valid_key(namespace@),
        valid_key(key@),
    ensures
        nvs_strings(*final(nvs)) == nvs_strings(*old(nvs)),
        nvs_in_order(*final(nvs)) == nvs_in_order(*old(nvs)),
        nvs_pages(*final(nvs)) == nvs_pages(*old(nvs)),
        nvs_top_sequence(*final(nvs)) == nvs_top_sequence(*old(nvs)),
        r matches Ok(v) ==> nvs_strings(*old(nvs)).contains_key((namespace@, key@)) && nvs_strings(*old(nvs))[(
            namespace@,
            key@,
        )] == v@,
        r is Err ==> !nvs_strings(*old(nvs)).contains_key((namespace@, key@)),
    no_unwind
{
    nvs.nvs.get::<String>(&esp_nvs::Key::from_str(namespace), &esp_nvs::Key::from_str(key))
}

/// `esp_nvs::Nvs::set::<&str>`. Whether it succeeds depends on the
/// partition, the namespace, the key and the value alone. It starts two
/// pages at most, each with the sequence number after the largest. Of a
/// partition in order that takes the value: it stays in order, the item
/// under the namespace and key is the value, and every other item is as
/// before. Of any other partition no more is said: a success there may leave
/// an older item in front of the new one.
///
/// With a sequence number near the end of the range its choice of a page to
/// clear overflows, so such a partition is left out.
#[verifier::external_body]
fn nvs_set(nvs: &mut Partition, namespace: &str, key: &str, value: &str) -> (r: Result<(), esp_nvs::error::Error>)
    requires
        valid_key(namespace@),
        valid_key(key@),
        nvs_top_sequence(*old(nvs)) <= WRITE_SEQUENCE_MAX,
    ensures
        r is Ok <==> nvs_takes(*old(nvs), namespace@, key@, value@),
        r is Ok && nvs_in_order(*old(nvs)) ==> nvs_in_order(*final(nvs)),
        r is Ok && nvs_in_order(*old(nvs)) ==> nvs_strings(*final(nvs)) == nvs_strings(*old(nvs)).insert((namespace@, key@), value@),
        nvs_pages(*final(nvs)) == nvs_pages(*old(nvs)),
        nvs_top_sequence(*final(nvs)) <= nvs_top_sequence(*old(nvs)) + WRITE_STARTS,
    no_unwind
{
    nvs.nvs.set::<&str>(&esp_nvs::Key::from_str(namespace), &esp_nvs::Key::from_str(key), value)
}

/// `esp_nvs::Nvs::delete`. Whether it succeeds depends on the partition, the
/// namespace and the key alone. Whatever the partition and whatever comes
/// back, it starts no page and erases only items of the key that it was
/// given, so what is read under any other key is as before. Of a partition
/// in order on which it succeeds: it stays in order, no item is left under
/// the namespace and key, and every other item is as before; a missing item
/// is no failure. On any other partition a success may leave a second item
/// of the key behind.
#[verifier::external_body]
fn nvs_delete(nvs: &mut Partition, namespace: &str, key: &str) -> (r: Result<(), esp_nvs::error::Error>)
    requires
        valid_key(namespace@),
        valid_key(key@),
    ensures
        r is Ok <==> nvs_drops(*old(nvs), namespace@, key@),
        r is Ok && nvs_in_order(*old(nvs)) ==> nvs_in_order(*final(nvs)),
        r is Ok && nvs_in_order(*old(nvs)) ==> nvs_strings(*final(nvs)) == nvs_strings(*old(nvs)).remove((namespace@, key@)),
        same_under_other_keys(nvs_strings(*final(nvs)), nvs_strings(*old(nvs)), key@),
        nvs_pages(*final(nvs)) == nvs_pages(*old(nvs)),
        nvs_top_sequence(*final(nvs)) == nvs_top_sequence(*old(nvs)),
    no_unwind
{
    nvs.nvs.delete(&esp_nvs::Key::from_str(namespace), &esp_nvs::Key::from_str(key))
}

/// Outcome of reading an item, with the store's failure lifted.
pub fn read_outcome(r: Result<String, esp_nvs::error::Error>) -> (out: Result<String, WmError>)
    ensures
        match r {
            Ok(v) => out == Ok::<String, WmError>(v),
            Err(_) => out matches Err(WmError::NvsError),
        },
{
    match r {
        Ok(v) => Ok(v),
        Err(_) => Err(WmError::NvsError),
    }
}

/// Outcome of writing an item, from what the store said of the writing and
/// what it then gave on reading the item back: the writing counts only where
/// it succeeded and the value can be read.
pub fn write_outcome(
    written: Result<(), esp_nvs::error::Error>,
    read: Result<String, esp_nvs::error::Error>,
    value: &str,
) -> (out: Result<(), WmError>)
    ensures
        out is Ok <==> written is Ok && (read matches Ok(v) && v@ == value@),
        out matches Err(e) ==> e is NvsError,
{
    match (written, read) {
        (Ok(_), Ok(v)) => {
            if v == value.to_owned() {
                Ok(())
            } else {
                Err(WmError::NvsError)
            }
        },
        _ => Err(WmError::NvsError),
    }
}

/// Outcome of deleting an item, from what the store said of the deletion and
/// what it then gave on reading the item: the deletion counts only where it
/// succeeded and nothing can be read any more.
pub fn delete_outcome(
    deleted: Result<(), esp_nvs::error::Error>,
    read: Result<String, esp_nvs::error::Error>,
) -> (out: Result<(), WmError>)
    ensures
        out is Ok <==> deleted is Ok && read is Err,
        out matches Err(e) ==> e is NvsError,
{
    match (deleted, read) {
        (Ok(_), Err(_)) => Ok(()),
        _ => Err(WmError::NvsError),
    }
}

/// The credential store: a partition, and a bound on the sequence numbers of
/// its pages.
pub struct NvsWifiHelper {
    partition: Partition,
    sequence_bound: u32,
}

impl NvsWifiHelper {
    /// No page of the partition carries a sequence number above the bound.
    #[verifier::type_invariant]
    closed spec fn bounded(self) -> bool {
        nvs_top_sequence(self.partition) <= self.sequence_bound
    }

    /// The string items of the partition, by namespace and key.
    pub closed spec fn view(&self) -> Map<(Seq<char>, Seq<char>), Seq<char>> {
        nvs_strings(self.partition)
    }

    /// Whether the partition is in order, as one is that was opened blank and
    /// has taken every write and deletion since. On such a store a write or
    /// deletion leaves every other item as it was.
    pub closed spec fn in_order(&self) -> bool {
        nvs_in_order(self.partition)
    }

    /// The number of pages of the partition.
    pub closed spec fn pages(&self) -> nat {
        nvs_pages(self.partition)
    }

    /// The bound that the store keeps on the sequence numbers of its pages:
    /// 0 for a blank partition, `OPENED_SEQUENCE_MAX` for one opened from an
    /// image, and `WRITE_STARTS` more with every write.
    pub closed spec fn sequence_bound(&self) -> nat {
        self.sequence_bound as nat
    }

    /// Whether the store takes the writing of `value` under a namespace and
    /// key: its sequence numbers leave room for a write, and the partition
    /// takes the value.
    pub closed spec fn takes(&self, namespace: Seq<char>, key: Seq<char>, value: Seq<char>) -> bool {
        self.sequence_bound <= WRITE_SEQUENCE_MAX && nvs_takes(self.partition, namespace, key, value)
    }

    /// Whether the store takes the deletion of what lies under a namespace
    /// and key.
    pub closed spec fn drops(&self, namespace: Seq<char>, key: Seq<char>) -> bool {
        nvs_drops(self.partition, namespace, key)
    }

    /// The item stored under a namespace and key, if there is one.
    pub open spec fn stored(&self, namespace: Seq<char>, key: Seq<char>) -> Option<Seq<char>> {
        if self@.contains_key((namespace, key)) {
            Some(self@[(namespace, key)])
        } else {
            None
        }
    }

    /// A store on a fresh partition of `pages` pages: empty and in order.
    /// It opens exactly with 1 to 65535 pages; the failure is
    /// `WmError::NvsError`.
    pub fn new(pages: usize) -> (r: Result<Self, WmError>)
        ensures
            r is Ok <==> 1 <= pages <= MAX_PAGES,
            r matches Ok(nvs) ==> nvs@ == no_items() && nvs.in_order() && nvs.pages() == pages,
            r matches Ok(nvs) ==> nvs.sequence_bound() == 0,
            r matches Err(e) ==> e is NvsError,
    {
        if pages > MAX_PAGES {
            return Err(WmError::NvsError);
        }
        match nvs_format(pages) {
            Ok(partition) => Ok(NvsWifiHelper { partition, sequence_bound: 0 }),
            Err(_) => Err(WmError::NvsError),
        }
    }

    /// A store on the partition whose bytes are `image`.
    ///
    /// An image opens exactly where it is a whole number of pages, its
    /// sequence numbers are small enough and `image_strings` has a value for
    /// it; that value is then what can be read from the store. Every failure
    /// is `WmError::NvsError`.
    pub fn from_image(image: Vec<u8>) -> (r: Result<Self, WmError>)
        ensures
            r is Ok <==> image@.len() % (PAGE_SIZE as nat) == 0 && sequences_fit(image@)
                && image_strings(image@) is Some,
            r matches Ok(nvs) ==> image_strings(image@) == Some(nvs@),
            r matches Ok(nvs) ==> nvs.pages() * PAGE_SIZE == image@.len(),
            r matches Ok(nvs) ==> nvs.sequence_bound() == OPENED_SEQUENCE_MAX,
            r matches Err(e) ==> e is NvsError,
    {
        if image.len() % PAGE_SIZE != 0 || !image_sequences_fit(&image) {
            return Err(WmError::NvsError);
        }
        match nvs_open(image) {
            Ok(partition) => Ok(NvsWifiHelper { partition, sequence_bound: OPENED_SEQUENCE_MAX }),
            Err(_) => Err(WmError::NvsError),
        }
    }

    /// The bytes of the partition, which are its pages. From the image of a
    /// store in order, `from_image` opens a store that holds the same items,
    /// as long as the sequence numbers are small enough.
    pub fn into_image(self) -> (image: Vec<u8>)
        ensures
            image@.len() == self.pages() * PAGE_SIZE,
            image@.len() % (PAGE_SIZE as nat) == 0,
            self.in_order() ==> image_strings(image@) == Some(self@),
            self.in_order() && self.sequence_bound() <= IMAGE_SEQUENCE_MAX ==> sequences_fit(image@),
    {
        proof {
            use_type_invariant(&self);
            vstd::arithmetic::div_mod::lemma_mod_multiples_basic(self.pages() as int, PAGE_SIZE as int);
        }
        nvs_into_image(self.partition)
    }

    /// Reads the string stored under `namespace` and `key`.
    ///
    /// The reading succeeds exactly where the store accepts the namespace and
    /// the key and holds a string under them, and gives that string. Every
    /// failure is `WmError::NvsError`. Reading changes nothing.
    pub fn get_str(&mut self, namespace: &str, key: &str) -> (r: Result<String, WmError>)
        ensures
            final(self)@ == old(self)@,
            final(self).in_order() == old(self).in_order(),
            final(self).pages() == old(self).pages(),
            final(self).sequence_bound() == old(self).sequence_bound(),
            r is Ok <==> valid_key(namespace@) && valid_key(key@) && old(self).stored(namespace@, key@) is Some,
            r matches Ok(v) ==> old(self).stored(namespace@, key@) == Some(v@),
            r matches Err(e) ==> e is NvsError,
    {
        proof {
            use_type_invariant(&*self);
        }
        if !is_valid_key(namespace) || !is_valid_key(key) {
            return Err(WmError::NvsError);
        }
        read_outcome(nvs_get(&mut self.partition, namespace, key))
    }

    /// Stores `value` under `namespace` and `key`, and reads it back.
    ///
    /// The writing succeeds exactly where the store accepts the namespace and
    /// the key and takes the value, and the value is what is then read under
    /// them. On a store in order every other item is as before. Every
    /// failure is `WmError::NvsError`; with a namespace or key the store does
    /// not accept, or without room in the sequence numbers, nothing is
    /// written.
    pub fn set_str(&mut self, namespace: &str, key: &str, value: &str) -> (r: Result<(), WmError>)
        ensures
            final(self).pages() == old(self).pages(),
            final(self).sequence_bound() <= old(self).sequence_bound() + WRITE_STARTS,
            r is Ok <==> valid_key(namespace@) && valid_key(key@) && old(self).takes(namespace@, key@, value@)
                && final(self).stored(namespace@, key@) == Some(value@),
            r is Ok && old(self).in_order() ==> final(self).in_order(),
            r is Ok && old(self).in_order() ==> final(self)@ == old(self)@.insert((namespace@, key@), value@),
            r matches Err(e) ==> e is NvsError,
            !(valid_key(namespace@) && valid_key(key@)) ==> *final(self) == *old(self),
    {
        proof {
            use_type_invariant(&*self);
        }
        if !is_valid_key(namespace) || !is_valid_key(key) || self.sequence_bound > WRITE_SEQUENCE_MAX {
            return Err(WmError::NvsError);
        }
        self.sequence_bound = self.sequence_bound + WRITE_STARTS;
        let written = nvs_set(&mut self.partition, namespace, key, value);
        let read = nvs_get(&mut self.partition, namespace, key);
        write_outcome(written, read, value)
    }

    /// Deletes the item under `namespace` and `key`, and reads to see that it
    /// is gone; a missing item is no failure.
    ///
    /// The deletion succeeds exactly where the store accepts the namespace
    /// and the key and takes the deletion, and nothing is then read under
    /// them. On a store in order every other item is as before. Every
    /// failure is `WmError::NvsError`; with a namespace or key the store does
    /// not accept nothing is deleted. Whatever comes back, what is stored
    /// under any other key is as before.
    pub fn delete(&mut self, namespace: &str, key: &str) -> (r: Result<(), WmError>)
        ensures
            final(self).pages() == old(self).pages(),
            final(self).sequence_bound() == old(self).sequence_bound(),
            same_under_other_keys(final(self)@, old(self)@, key@),
            r is Ok <==> valid_key(namespace@) && valid_key(key@) && old(self).drops(namespace@, key@)
                && final(self).stored(namespace@, key@) is None,
            r is Ok && old(self).in_order() ==> final(self).in_order(),
            r is Ok && old(self).in_order() ==> final(self)@ == old(self)@.remove((namespace@, key@)),
            r matches Err(e) ==> e is NvsError,
            !(valid_key(namespace@) && valid_key(key@)) ==> *final(self) == *old(self),
    {
        proof {
            use_type_invariant(&*self);
        }
        if !is_valid_key(namespace) || !is_valid_key(key) {
            return Err(WmError::NvsError);
        }
        let deleted = nvs_delete(&mut self.partition, namespace, key);
        let read = nvs_get(&mut self.partition, namespace, key);
        delete_outcome(deleted, read)
    }
}

} // verus!
