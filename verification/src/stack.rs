//! The stack usage of the functions of a program, from the `.stack_sizes` section that the
//! compiler emits in its ELF file: records of a 32-bit function address and a LEB128 stack
//! size, reported largest first, with the demangled names of the functions.
use vstd::prelude::*;

use vstd::string::StringSliceAdditionalSpecFns;
use vstd::utf8::encode_utf8;

use goblin::error::Error as GoblinError;

use crate::leb128::{lemma_leb128_len, leb128_len, leb128_len_from, leb128_value, parse_leb128};

verus! {

#[verifier::external_type_specification]
#[verifier::external_body]
pub struct ExElfError(GoblinError);

/// A symbol of an ELF file
pub struct ElfSymbol {
    /// The name of the symbol, when the string table holds it
    pub name: Option<String>,
    /// The value of the symbol: the address of a function
    pub value: u64,
}

/// A section of an ELF file
pub struct ElfSection {
    /// The name of the section, when the section name table holds it
    pub name: Option<String>,
    /// Where the contents of the section start in the file
    pub offset: u64,
    /// The size of the contents of the section
    pub size: u64,
}

/// What the stack report reads of an ELF file
pub struct ElfFile {
    /// The file is a 64-bit one
    pub is_64: bool,
    /// The symbols of the symbol table
    pub symbols: Vec<ElfSymbol>,
    /// The section headers
    pub sections: Vec<ElfSection>,
}

/// A symbol, by its name and value.
pub struct SymbolModel {
    /// The name of the symbol
    pub name: Option<Seq<char>>,
    /// The value of the symbol
    pub value: u64,
}

/// A section header, by its name and the place of its contents.
pub struct SectionModel {
    /// The name of the section
    pub name: Option<Seq<char>>,
    /// Where the contents start
    pub offset: u64,
    /// The size of the contents
    pub size: u64,
}

/// What the stack report reads of an ELF file.
pub struct ElfModel {
    /// The file is a 64-bit one
    pub is_64: bool,
    /// The symbols
    pub symbols: Seq<SymbolModel>,
    /// The section headers
    pub sections: Seq<SectionModel>,
}

/// The characters of an optional name.
pub open spec fn name_view(name: Option<String>) -> Option<Seq<char>> {
    match name {
        Some(n) => Some(n@),
        None => None,
    }
}

impl View for ElfSymbol {
    type V = SymbolModel;

    open spec fn view(&self) -> SymbolModel {
        SymbolModel { name: name_view(self.name), value: self.value }
    }
}

impl View for ElfSection {
    type V = SectionModel;

    open spec fn view(&self) -> SectionModel {
        SectionModel { name: name_view(self.name), offset: self.offset, size: self.size }
    }
}

impl View for ElfFile {
    type V = ElfModel;

    open spec fn view(&self) -> ElfModel {
        ElfModel {
            is_64: self.is_64,
            symbols: self.symbols@.map_values(|s: ElfSymbol| s@),
            sections: self.sections@.map_values(|s: ElfSection| s@),
        }
    }
}

/// What an ELF parser reads of the file `data`, or `None` when the file is not a valid ELF
/// file.
pub uninterp spec fn elf_contents(data: Seq<u8>) -> Option<ElfModel>;

/// The demangled form of a symbol name.
pub uninterp spec fn demangled(name: Seq<char>) -> Seq<char>;

/// Parses an ELF file with `goblin::elf::Elf::parse` and keeps its class, the names and values
/// of its symbols (`syms`, named by `strtab`) and the names and places of its sections
/// (`section_headers`, named by `shdr_strtab`). The contract names what is read: it depends on
/// the bytes of the file alone.
#[verifier::external_body]
fn parse_elf(data: &[u8]) -> (r: Result<ElfFile, GoblinError>)
    ensures
        match r {
            Ok(f) => elf_contents(data@) == Some(f@),
            Err(_) => elf_contents(data@) is None,
        },
{
    let elf = goblin::elf::Elf::parse(data)?;
    let symbols = elf.syms.iter().map(
        |s| ElfSymbol { name: elf.strtab.get_at(s.st_name).map(|n| n.to_string()), value: s.st_value },
    ).collect();
    let sections = elf.section_headers.iter().map(
        |s| ElfSection {
            name: elf.shdr_strtab.get_at(s.sh_name).map(|n| n.to_string()),
            offset: s.sh_offset,
            size: s.sh_size,
        },
    ).collect();
    Ok(ElfFile { is_64: elf.is_64, symbols, sections })
}

/// Demangles a symbol name with `rustc_demangle::demangle`, printed in full. The contract
/// names the result: it depends on the name alone.
#[verifier::external_body]
fn demangle_symbol(name: &str) -> (r: String)
    ensures
        r@ == demangled(name@),
{
    rustc_demangle::demangle(name).to_string()
}

/// Whether a name starts with `$`: a local label of the assembler, which names no function.
pub open spec fn is_local_label(name: Seq<char>) -> bool {
    encode_utf8(name).len() > 0 && encode_utf8(name)[0] == 0x24
}

/// Whether a symbol names the function at `address`.
pub open spec fn names_function(s: SymbolModel, address: u64) -> bool {
    &&& s.name matches Some(n) && !is_local_label(n)
    &&& s.value == address
}

/// The name of the first symbol from position `i` that names the function at `address`.
pub open spec fn resolved_from(symbols: Seq<SymbolModel>, address: u64, i: nat) -> Option<
    Seq<char>,
>
    decreases symbols.len() - i,
{
    if i >= symbols.len() {
        None
    } else if names_function(symbols[i as int], address) {
        symbols[i as int].name
    } else {
        resolved_from(symbols, address, i + 1)
    }
}

/// The name of the first symbol that names the function at `address`.
pub open spec fn resolved(symbols: Seq<SymbolModel>, address: u64) -> Option<Seq<char>> {
    resolved_from(symbols, address, 0)
}

/// The name of the first symbol that names the function at `address`
pub fn resolve_symbol(symbols: &Vec<ElfSymbol>, address: u64) -> (r: Option<&String>)
    ensures
        name_view(match r {
            Some(n) => Some(*n),
            None => None,
        }) == resolved(symbols@.map_values(|s: ElfSymbol| s@), address),
{
    let ghost model = symbols@.map_values(|s: ElfSymbol| s@);
    let mut i: usize = 0;
    while i < symbols.len()
        invariant
            i <= symbols@.len(),
            model == symbols@.map_values(|s: ElfSymbol| s@),
            resolved_from(model, address, i as nat) == resolved(model, address),
        decreases symbols@.len() - i,
    {
        let s = &symbols[i];
        assert(model[i as int] == s@);
        if let Some(n) = &s.name {
            let bytes = n.as_str().as_bytes();
            if (bytes.len() == 0 || bytes[0] != 0x24) && s.value == address {
                return Some(n);
            }
        }
        i = i + 1;
    }
    None
}

/// The little-endian 32-bit number of the first four bytes of `d`.
pub open spec fn u32_le(d: Seq<u8>) -> u32 {
    (d[0] as u32) | ((d[1] as u32) << 8u32) | ((d[2] as u32) << 16u32) | ((d[3] as u32) << 24u32)
}

/// The records of `data` are whole: each holds a 4-byte address and a stack size whose
/// LEB128 encoding fits in 128 bits.
pub open spec fn records_ok(data: Seq<u8>) -> bool
    decreases data.len(),
{
    if data.len() == 0 {
        true
    } else if data.len() < 4 {
        false
    } else {
        let rest = data.skip(4);
        proof {
            lemma_leb128_len(rest);
        }
        leb128_len(rest) <= 19 && records_ok(rest.skip(leb128_len(rest)))
    }
}

/// The name of the function at `address`, or of its Thumb form (the address with bit 0
/// set), or `??`.
pub open spec fn function_name(elf: ElfModel, address: u32) -> Seq<char> {
    match resolved(elf.symbols, address as u64) {
        Some(n) => n,
        None => match resolved(elf.symbols, (address | 1) as u64) {
            Some(n) => n,
            None => "??"@,
        },
    }
}

/// The demangled function names and the stack sizes of the records of `data`, in order.
pub open spec fn stack_entries(elf: ElfModel, data: Seq<u8>) -> Seq<(Seq<char>, u128)>
    decreases data.len(),
{
    if data.len() < 4 {
        Seq::empty()
    } else {
        let rest = data.skip(4);
        let n = leb128_len(rest);
        proof {
            lemma_leb128_len(rest);
        }
        seq![(demangled(function_name(elf, u32_le(data))), leb128_value(rest, n as nat))]
            + stack_entries(elf, rest.skip(n))
    }
}

/// `e` inserted into `sorted` (largest first) after the entries at least as large.
pub open spec fn insert_desc<T>(sorted: Seq<(T, u128)>, e: (T, u128)) -> Seq<(T, u128)>
    decreases sorted.len(),
{
    if sorted.len() == 0 {
        seq![e]
    } else if sorted.last().1 >= e.1 {
        sorted.push(e)
    } else {
        insert_desc(sorted.drop_last(), e).push(sorted.last())
    }
}

/// The entries of `s`, largest first; entries of the same size keep their order (a stable
/// sort).
pub open spec fn sort_desc<T>(s: Seq<(T, u128)>) -> Seq<(T, u128)>
    decreases s.len(),
{
    if s.len() == 0 {
        s
    } else {
        insert_desc(sort_desc(s.drop_last()), s.last())
    }
}

/// The entries are ordered largest first.
pub open spec fn is_desc<T>(s: Seq<(T, u128)>) -> bool {
    forall|i: int, j: int| 0 <= i < j < s.len() ==> #[trigger] s[i].1 >= #[trigger] s[j].1
}

proof fn lemma_insert_desc<T>(sorted: Seq<(T, u128)>, e: (T, u128))
    requires
        is_desc(sorted),
    ensures
        is_desc(insert_desc(sorted, e)),
        insert_desc(sorted, e).to_multiset() == sorted.to_multiset().insert(e),
        insert_desc(sorted, e).len() == sorted.len() + 1,
    decreases sorted.len(),
{
    broadcast use vstd::seq_lib::group_to_multiset_ensures;

    if sorted.len() == 0 {
        assert(seq![e] =~= Seq::<(T, u128)>::empty().push(e));
    } else if sorted.last().1 >= e.1 {
    } else {
        let init = sorted.drop_last();
        lemma_insert_desc(init, e);
        assert(init.push(sorted.last()) =~= sorted);
        let ins = insert_desc(init, e);
        assert forall|i: int, j: int| 0 <= i < j < ins.push(sorted.last()).len() implies
            #[trigger] ins.push(sorted.last())[i].1 >= #[trigger] ins.push(sorted.last())[j].1 by {
            if j == ins.len() {
                if i == ins.len() - 1 {
                } else {
                    assert(ins[i].1 >= ins.last().1);
                }
            }
        }
    }
}

/// Sorting orders the entries largest first, and keeps them all: it gives a permutation of
/// its input.
pub proof fn lemma_sort_desc<T>(s: Seq<(T, u128)>)
    ensures
        is_desc(sort_desc(s)),
        sort_desc(s).to_multiset() == s.to_multiset(),
        sort_desc(s).len() == s.len(),
    decreases s.len(),
{
    broadcast use vstd::seq_lib::group_to_multiset_ensures;

    if s.len() > 0 {
        lemma_sort_desc(s.drop_last());
        lemma_insert_desc(sort_desc(s.drop_last()), s.last());
        assert(s.drop_last().push(s.last()) =~= s);
    }
}

/// The entries with their names as characters.
pub open spec fn entries_view(s: Seq<(String, u128)>) -> Seq<(Seq<char>, u128)> {
    s.map_values(|p: (String, u128)| (p.0@, p.1))
}

proof fn lemma_insert_view(s: Seq<(String, u128)>, e: (String, u128))
    ensures
        entries_view(insert_desc(s, e)) == insert_desc(entries_view(s), (e.0@, e.1)),
    decreases s.len(),
{
    if s.len() == 0 {
        assert(entries_view(seq![e]) =~= seq![(e.0@, e.1)]);
    } else if s.last().1 >= e.1 {
        assert(entries_view(s.push(e)) =~= entries_view(s).push((e.0@, e.1)));
    } else {
        lemma_insert_view(s.drop_last(), e);
        assert(entries_view(s.drop_last()) =~= entries_view(s).drop_last());
        assert(entries_view(insert_desc(s.drop_last(), e).push(s.last())) =~= entries_view(
            insert_desc(s.drop_last(), e),
        ).push((s.last().0@, s.last().1)));
    }
}

proof fn lemma_sort_view(s: Seq<(String, u128)>)
    ensures
        entries_view(sort_desc(s)) == sort_desc(entries_view(s)),
    decreases s.len(),
{
    if s.len() > 0 {
        lemma_sort_view(s.drop_last());
        lemma_insert_view(sort_desc(s.drop_last()), s.last());
        assert(entries_view(s.drop_last()) =~= entries_view(s).drop_last());
    }
}

/// The entries sorted largest first, stably.
fn sort_by_size(entries: Vec<(String, u128)>) -> (r: Vec<(String, u128)>)
    ensures
        r@ == sort_desc(entries@),
{
    let mut r: Vec<(String, u128)> = Vec::new();
    let n = entries.len();
    let mut rest = entries;
    let ghost all = rest@;
    let mut k: usize = 0;
    while k < n
        invariant
            n == all.len(),
            k <= all.len(),
            rest@ == all.skip(k as int),
            r@ == sort_desc(all.take(k as int)),
        decreases all.len() - k,
    {
        let e = rest.remove(0);
        assert(e == all[k as int]);
        let mut j = r.len();
        proof {
            assert(r@.take(j as int) =~= r@);
            assert(r@.skip(j as int) =~= Seq::<(String, u128)>::empty());
            assert(insert_desc(r@, e) =~= insert_desc(r@.take(j as int), e) + r@.skip(j as int));
        }
        while j > 0 && r[j - 1].1 < e.1
            invariant
                j <= r@.len(),
                insert_desc(r@, e) == insert_desc(r@.take(j as int), e) + r@.skip(j as int),
            decreases j,
        {
            proof {
                let t = r@.take(j as int);
                assert(t.drop_last() =~= r@.take(j - 1));
                assert(r@.skip(j - 1) =~= seq![r@[j - 1]] + r@.skip(j as int));
                assert(insert_desc(t, e) == insert_desc(t.drop_last(), e).push(t.last()));
                assert(insert_desc(r@.take(j - 1), e).push(r@[j - 1]) + r@.skip(j as int)
                    =~= insert_desc(r@.take(j - 1), e) + r@.skip(j - 1));
            }
            j = j - 1;
        }
        proof {
            let t = r@.take(j as int);
            assert(insert_desc(t, e) =~= t.push(e));
            assert(t.push(e) + r@.skip(j as int) =~= r@.insert(j as int, e));
            assert(all.take(k + 1).drop_last() =~= all.take(k as int));
            assert(all.take(k + 1).last() == e);
            assert(all.skip(k as int).skip(1) =~= all.skip(k + 1));
        }
        r.insert(j, e);
        k = k + 1;
    }
    assert(all.take(k as int) =~= all);
    r
}

/// Parses the records of the `.stack_sizes` section `data` of a 32-bit ELF file: the
/// demangled name of the function of each record, with its stack size, largest first
pub fn parse_stack_sizes(elf: &ElfFile, data: &[u8]) -> (r: Vec<(String, u128)>)
    requires
        !elf.is_64,
        records_ok(data@),
    ensures
        entries_view(r@) == sort_desc(stack_entries(elf@, data@)),
{
    let mut entries: Vec<(String, u128)> = Vec::new();
    let mut data = data;
    let ghost all = data@;
    while data.len() > 0
        invariant
            records_ok(data@),
            entries_view(entries@) + stack_entries(elf@, data@) == stack_entries(elf@, all),
        decreases data@.len(),
    {
        let pointer = (data[0] as u32) | ((data[1] as u32) << 8) | ((data[2] as u32) << 16) | ((
        data[3] as u32) << 24);
        let rest = vstd::slice::slice_subrange(data, 4, data.len());
        assert(rest@ == data@.skip(4));
        let symbol = match resolve_symbol(&elf.symbols, pointer as u64) {
            Some(name) => name.as_str(),
            None => match resolve_symbol(&elf.symbols, (pointer | 1) as u64) {
                Some(name) => name.as_str(),
                None => "??",
            },
        };
        proof {
            reveal_strlit("??");
        }
        assert(symbol@ == function_name(elf@, pointer));
        let name = demangle_symbol(symbol);
        proof {
            lemma_leb128_len(rest@);
        }
        let (size, tail) = parse_leb128(rest);
        let ghost before = entries@;
        entries.push((name, size));
        proof {
            assert(entries_view(entries@) =~= entries_view(before).push(
                (demangled(function_name(elf@, pointer)), size),
            ));
            assert(tail@ == rest@.skip(leb128_len(rest@)));
            assert(entries_view(entries@) + stack_entries(elf@, tail@) =~= entries_view(before)
                + stack_entries(elf@, data@));
        }
        data = tail;
    }
    let r = sort_by_size(entries);
    proof {
        lemma_sort_view(entries@);
        assert(entries_view(entries@) =~= stack_entries(elf@, all));
    }
    r
}

/// Why the stack report could not be made
#[derive(Debug, Clone, Copy, PartialEq, Eq, Structural)]
pub enum StackError {
    /// The file is not a valid ELF file
    InvalidElf,
}

/// The first section from position `i` whose name is `name`.
pub open spec fn section_named_from(sections: Seq<SectionModel>, name: Seq<char>, i: nat) -> Option<
    SectionModel,
>
    decreases sections.len() - i,
{
    if i >= sections.len() {
        None
    } else if sections[i as int].name == Some(name) {
        Some(sections[i as int])
    } else {
        section_named_from(sections, name, i + 1)
    }
}

/// The section that holds the stack sizes: the first one named `.stack_sizes`.
pub open spec fn stack_sizes_section(elf: ElfModel) -> Option<SectionModel> {
    section_named_from(elf.sections, ".stack_sizes"@, 0)
}

/// The stack report can be made from the ELF file `data`, read as `elf`, with its section
/// `sec`: the section lies within the file, the file is a 32-bit one and its records are
/// whole.
pub open spec fn stack_report_ok(elf: ElfModel, sec: SectionModel, data: Seq<u8>) -> bool {
    &&& sec.offset + sec.size <= data.len()
    &&& !elf.is_64
    &&& records_ok(data.subrange(sec.offset as int, sec.offset + sec.size))
}

/// The first section named `.stack_sizes`.
fn find_stack_sizes_section(sections: &Vec<ElfSection>) -> (r: Option<&ElfSection>)
    ensures
        match r {
            Some(s) => Some(s@),
            None => None,
        } == stack_sizes_section(
            ElfModel { is_64: false, symbols: Seq::empty(), sections: sections@.map_values(|s: ElfSection| s@) },
        ),
{
    let ghost model = sections@.map_values(|s: ElfSection| s@);
    let target = ".stack_sizes".to_owned();
    proof {
        reveal_strlit(".stack_sizes");
    }
    let mut i: usize = 0;
    while i < sections.len()
        invariant
            i <= sections@.len(),
            target@ == ".stack_sizes"@,
            model == sections@.map_values(|s: ElfSection| s@),
            section_named_from(model, ".stack_sizes"@, i as nat) == section_named_from(
                model,
                ".stack_sizes"@,
                0,
            ),
        decreases sections@.len() - i,
    {
        let s = &sections[i];
        assert(model[i as int] == s@);
        if let Some(n) = &s.name {
            if *n == target {
                return Some(s);
            }
        }
        i = i + 1;
    }
    None
}

/// The stack sizes of the functions of the ELF file `data`, largest first (see
/// `parse_stack_sizes`); `None` when the file has no `.stack_sizes` section, when the section
/// lies beyond the end of the file, when the file is a 64-bit one or when its records are not
/// whole
pub fn check_stack_sizes(data: &[u8]) -> (r: Result<Option<Vec<(String, u128)>>, StackError>)
    ensures
        match elf_contents(data@) {
            None => r == Err::<Option<Vec<(String, u128)>>, StackError>(StackError::InvalidElf),
            Some(elf) => match stack_sizes_section(elf) {
                None => r == Ok::<Option<Vec<(String, u128)>>, StackError>(None),
                Some(sec) => if stack_report_ok(elf, sec, data@) {
                    r matches Ok(Some(v)) && entries_view(v@) == sort_desc(
                        stack_entries(
                            elf,
                            data@.subrange(sec.offset as int, sec.offset + sec.size),
                        ),
                    )
                } else {
                    r == Ok::<Option<Vec<(String, u128)>>, StackError>(None)
                },
            },
        },
{
    let elf = match parse_elf(data) {
        Ok(elf) => elf,
        Err(_) => {
            return Err(StackError::InvalidElf);
        },
    };
    let section = match find_stack_sizes_section(&elf.sections) {
        Some(s) => s,
        None => {
            return Ok(None);
        },
    };
    if section.offset > data.len() as u64 || section.size > data.len() as u64 - section.offset {
        return Ok(None);
    }
    if elf.is_64 {
        return Ok(None);
    }
    let begin = section.offset as usize;
    let end = (section.offset + section.size) as usize;
    let records = vstd::slice::slice_subrange(data, begin, end);
    if !records_are_whole(records) {
        return Ok(None);
    }
    Ok(Some(parse_stack_sizes(&elf, records)))
}

/// Whether the records of `data` are whole (see `records_ok`).
fn records_are_whole(data: &[u8]) -> (r: bool)
    ensures
        r == records_ok(data@),
{
    let mut remaining = data;
    while remaining.len() > 0
        invariant
            records_ok(remaining@) == records_ok(data@),
        decreases remaining@.len(),
    {
        if remaining.len() < 4 {
            return false;
        }
        let rest = vstd::slice::slice_subrange(remaining, 4, remaining.len());
        assert(rest@ == remaining@.skip(4));
        proof {
            lemma_leb128_len(rest@);
        }
        let n = leb128_length(rest);
        if n > 19 {
            return false;
        }
        let tail = vstd::slice::slice_subrange(rest, n, rest.len());
        assert(tail@ == rest@.skip(n as int));
        remaining = tail;
    }
    true
}

/// The number of bytes of the LEB128 number at the start of `data`.
fn leb128_length(data: &[u8]) -> (n: usize)
    ensures
        n == leb128_len(data@),
{
    let mut i: usize = 0;
    while i < data.len() && data[i] & 0x80 != 0
        invariant
            i <= data@.len(),
            leb128_len_from(data@, i as int) == leb128_len(data@),
        decreases data@.len() - i,
    {
        i = i + 1;
    }
    if i < data.len() {
        i + 1
    } else {
        data.len()
    }
}

/// The length in bytes of the longest name among the first `k` entries, or 0.
pub open spec fn longest_name(s: Seq<(Seq<char>, u128)>, k: nat) -> nat
    decreases k,
{
    if k == 0 {
        0
    } else {
        let rest = longest_name(s, (k - 1) as nat);
        let len = encode_utf8(s[k - 1].0).len();
        if len > rest {
            len
        } else {
            rest
        }
    }
}

/// The length in bytes of the longest name among the first `count` entries (all of them when
/// there are fewer), or 0: the width of the column of names of the report
pub fn name_width(entries: &Vec<(String, u128)>, count: usize) -> (r: usize)
    ensures
        r == longest_name(
            entries_view(entries@),
            if count < entries@.len() {
                count as nat
            } else {
                entries@.len()
            },
        ),
{
    let n = if count < entries.len() {
        count
    } else {
        entries.len()
    };
    let mut width: usize = 0;
    let mut k: usize = 0;
    while k < n
        invariant
            k <= n,
            n <= entries@.len(),
            width == longest_name(entries_view(entries@), k as nat),
        decreases n - k,
    {
        let bytes = entries[k].0.as_str().as_bytes();
        let len = bytes.len();
        assert(entries_view(entries@)[k as int].0 == entries@[k as int].0@);
        assert(len == encode_utf8(entries_view(entries@)[k as int].0).len());
        if len > width {
            width = len;
        }
        k = k + 1;
    }
    width
}

} // verus!
