//! The Bootstrap grid: rows of columns, and the classes that size a column at
//! each breakpoint.
use vstd::prelude::*;
use vstd::string::StringExecFns;
use crate::text::{decimal, decimal_text, joined};

verus! {

/// The screen width from which a column size holds.
#[derive(Debug, Clone, Copy, Hash, PartialEq, Eq, PartialOrd, Ord, Structural)]
pub enum Breakpoint {
    ExtraSmall,
    Small,
    Medium,
    Large,
    ExtraLarge,
}

impl Default for Breakpoint {
    /// The value that stands where none is given.
    fn default() -> (r: Self)
        ensures
            r == Breakpoint::ExtraSmall,
    {
        Breakpoint::ExtraSmall
    }
}

impl Breakpoint {
    /// The infix of the breakpoint in a column class: nothing for the
    /// smallest, else a hyphen and the breakpoint's short name.
    pub open spec fn text(self) -> Seq<char> {
        match self {
            Breakpoint::ExtraSmall => ""@,
            Breakpoint::Small => "-sm"@,
            Breakpoint::Medium => "-md"@,
            Breakpoint::Large => "-lg"@,
            Breakpoint::ExtraLarge => "-xl"@,
        }
    }

    /// What is written for this value, as a string slice.
    pub fn as_ref(&self) -> (r: &'static str)
        ensures
            r@ == self.text(),
    {
        match self {
            Breakpoint::ExtraSmall => "",
            Breakpoint::Small => "-sm",
            Breakpoint::Medium => "-md",
            Breakpoint::Large => "-lg",
            Breakpoint::ExtraLarge => "-xl",
        }
    }

    /// Writes the value out.
    pub fn to_string(&self) -> (r: String)
        ensures
            r@ == self.text(),
    {
        self.as_ref().to_owned()
    }
}

/// How wide a column is: not said, a number of twelfths, or as wide as its
/// content.
#[derive(Debug, Clone, Copy, Hash, PartialEq, Eq, PartialOrd, Ord, Structural)]
pub enum ColumnWidth {
    Unset,
    Sized(u8),
    Auto,
}

impl Default for ColumnWidth {
    /// The value that stands where none is given.
    fn default() -> (r: Self)
        ensures
            r == ColumnWidth::Unset,
    {
        ColumnWidth::Unset
    }
}

impl From<u8> for ColumnWidth {
    /// A width of `value` twelfths.
    fn from(value: u8) -> (r: Self)
        ensures
            r == ColumnWidth::Sized(value),
    {
        ColumnWidth::Sized(value)
    }
}

impl vstd::std_specs::convert::FromSpecImpl<u8> for ColumnWidth {
    open spec fn obeys_from_spec() -> bool {
        true
    }

    open spec fn from_spec(value: u8) -> Self {
        ColumnWidth::Sized(value)
    }
}

impl ColumnWidth {
    /// The suffix of the width in a column class: nothing, a hyphen and the
    /// number in decimal, or `-auto`.
    pub open spec fn text(self) -> Seq<char> {
        match self {
            ColumnWidth::Unset => Seq::empty(),
            ColumnWidth::Sized(n) => "-"@ + decimal(n as nat),
            ColumnWidth::Auto => "-auto"@,
        }
    }

    /// Writes the value out.
    pub fn to_string(&self) -> (r: String)
        ensures
            r@ == self.text(),
    {
        match self {
            ColumnWidth::Unset => String::new(),
            ColumnWidth::Sized(n) => {
                let number = decimal_text(*n);
                joined("-", number.as_str())
            },
            ColumnWidth::Auto => "-auto".to_owned(),
        }
    }
}

/// The width of a column from one breakpoint on.
#[derive(Debug, Clone, Copy, Hash, PartialEq, Eq, PartialOrd, Ord, Structural)]
pub struct ColumnSize {
    pub breakpoint: Breakpoint,
    pub width: ColumnWidth,
}

impl Default for ColumnSize {
    /// The value that stands where none is given.
    fn default() -> (r: Self)
        ensures
            r == (ColumnSize { breakpoint: Breakpoint::ExtraSmall, width: ColumnWidth::Unset }),
    {
        ColumnSize { breakpoint: Breakpoint::ExtraSmall, width: ColumnWidth::Unset }
    }
}

impl ColumnSize {
    /// The column class: `col`, the breakpoint's infix and the width's suffix.
    pub open spec fn text(self) -> Seq<char> {
        "col"@ + self.breakpoint.text() + self.width.text()
    }

    /// The width `width` from `breakpoint` on.
    pub fn new(breakpoint: Breakpoint, width: ColumnWidth) -> (r: Self)
        ensures
            r == (ColumnSize { breakpoint, width }),
    {
        ColumnSize { breakpoint, width }
    }

    /// The same width from another breakpoint on.
    pub fn with_breakpoint(self, breakpoint: Breakpoint) -> (r: Self)
        ensures
            r == (ColumnSize { breakpoint, width: self.width }),
    {
        ColumnSize { breakpoint, width: self.width }
    }

    /// A width of `width` twelfths from the same breakpoint on.
    pub fn with_width(self, width: u8) -> (r: Self)
        ensures
            r == (ColumnSize { breakpoint: self.breakpoint, width: ColumnWidth::Sized(width) }),
    {
        ColumnSize { breakpoint: self.breakpoint, width: ColumnWidth::Sized(width) }
    }

    /// The width of the content from the same breakpoint on.
    pub fn with_auto_width(self) -> (r: Self)
        ensures
            r == (ColumnSize { breakpoint: self.breakpoint, width: ColumnWidth::Auto }),
    {
        ColumnSize { breakpoint: self.breakpoint, width: ColumnWidth::Auto }
    }

    /// Writes the value out.
    pub fn to_string(&self) -> (r: String)
        ensures
            r@ == self.text(),
    {
        let mut out = joined("col", self.breakpoint.as_ref());
        let width = self.width.to_string();
        out.append(width.as_str());
        out
    }
}

/// Whether no size occurs twice in `sizes`.
pub open spec fn distinct(sizes: Seq<ColumnSize>) -> bool {
    forall|i: int, j: int| 0 <= i < j < sizes.len() ==> sizes[i] != sizes[j]
}

/// `sizes` with `size` in it: as they are where it is among them already,
/// else with it added at the end.
pub open spec fn with_member(sizes: Seq<ColumnSize>, size: ColumnSize) -> Seq<ColumnSize> {
    if sizes.contains(size) {
        sizes
    } else {
        sizes.push(size)
    }
}

/// Putting a size among distinct sizes leaves them distinct and holding the
/// size, and putting it there again changes nothing.
pub proof fn with_member_is_a_set_insertion(sizes: Seq<ColumnSize>, size: ColumnSize)
    requires
        distinct(sizes),
    ensures
        distinct(with_member(sizes, size)),
        with_member(sizes, size).contains(size),
        with_member(with_member(sizes, size), size) == with_member(sizes, size),
        forall|other: ColumnSize| sizes.contains(other) ==> with_member(sizes, size).contains(other),
{
    let grown = sizes.push(size);
    assert(grown[sizes.len() as int] == size);
    if !sizes.contains(size) {
        assert forall|i: int, j: int| 0 <= i < j < grown.len() implies grown[i] != grown[j] by {
            if j == sizes.len() {
                assert(sizes[i] == grown[i]);
                assert(sizes.contains(grown[i]));
            }
        }
        assert forall|other: ColumnSize| sizes.contains(other) implies grown.contains(other) by {
            let i = choose|i: int| 0 <= i < sizes.len() && sizes[i] == other;
            assert(grown[i] == other);
        }
    }
}

/// A column of a row: its content and the set of its sizes.
pub struct Column {
    pub sizes: Vec<ColumnSize>,
    pub content: String,
}

impl Column {
    /// Whether the sizes are a set: none occurs twice.
    pub open spec fn well_formed(self) -> bool {
        distinct(self.sizes@)
    }

    /// A column without sizes.
    pub fn new(content: &str) -> (r: Column)
        ensures
            r.sizes@ == Seq::<ColumnSize>::empty(),
            r.content@ == content@,
            r.well_formed(),
    {
        Column { sizes: Vec::new(), content: content.to_owned() }
    }

    /// Adds the size that `breakpoint` and what `width` converts into make,
    /// unless the column has that very size already.
    #[verifier::loop_isolation(false)]
    pub fn with_size<Width: Into<ColumnWidth>>(self, breakpoint: Breakpoint, width: Width) -> (r:
        Self)
        ensures
            r.content == self.content,
            exists|converted: ColumnWidth|
                #[trigger] call_ensures(<Width as Into<ColumnWidth>>::into, (width,), converted)
                    && r.sizes@ == with_member(
                    self.sizes@,
                    (ColumnSize { breakpoint, width: converted }),
                ),
            self.well_formed() ==> r.well_formed(),
    {
        let converted: ColumnWidth = width.into();
        let size = ColumnSize::new(breakpoint, converted);
        let mut r = self;
        let mut i: usize = 0;
        while i < r.sizes.len()
            invariant
                i <= r.sizes.len(),
                r == self,
                forall|j: int| 0 <= j < i ==> r.sizes@[j] != size,
            decreases r.sizes.len() - i,
        {
            if r.sizes[i] == size {
                assert(r.sizes@.contains(size));
                return r;
            }
            i += 1;
        }
        assert(!r.sizes@.contains(size));
        r.sizes.push(size);
        r
    }
}

impl From<&'static str> for Column {
    /// A column without sizes.
    fn from(value: &'static str) -> (r: Self)
        ensures
            r.sizes@ == Seq::<ColumnSize>::empty(),
            r.content@ == value@,
    {
        Column::new(value)
    }
}

// The conversion makes a new string or vector, which ghost code cannot
// build: what it returns is stated by the `ensures` of `from`.
impl vstd::std_specs::convert::FromSpecImpl<&'static str> for Column {
    open spec fn obeys_from_spec() -> bool {
        false
    }

    open spec fn from_spec(value: &'static str) -> Self {
        arbitrary()
    }
}

impl From<String> for Column {
    /// A column without sizes.
    fn from(value: String) -> (r: Self)
        ensures
            r.sizes@ == Seq::<ColumnSize>::empty(),
            r.content == value,
    {
        Column { sizes: Vec::new(), content: value }
    }
}

// The conversion makes a new string or vector, which ghost code cannot
// build: what it returns is stated by the `ensures` of `from`.
impl vstd::std_specs::convert::FromSpecImpl<String> for Column {
    open spec fn obeys_from_spec() -> bool {
        false
    }

    open spec fn from_spec(value: String) -> Self {
        arbitrary()
    }
}

/// A row of the grid: its columns from left to right.
pub struct Row(pub Vec<Column>);

impl Row {
    /// A row without columns.
    pub fn new() -> (r: Self)
        ensures
            r.0@ == Seq::<Column>::empty(),
    {
        Row(Vec::new())
    }

    /// Adds what `column` converts into to the right of the columns that are
    /// there.
    pub fn with_column<C: Into<Column>>(self, column: C) -> (r: Self)
        ensures
            r.0@.len() == self.0@.len() + 1,
            r.0@.drop_last() == self.0@,
            call_ensures(<C as Into<Column>>::into, (column,), r.0@.last()),
    {
        let mut r = self;
        r.0.push(column.into());
        assert(r.0@.drop_last() =~= self.0@);
        r
    }
}

} // verus!
