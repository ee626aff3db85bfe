use vstd::prelude::*;

verus! {

/// A calendar date.
#[derive(Debug, Clone, Copy, PartialEq, Eq)]
pub struct Date {
    pub year: i32,
    pub month: u8,
    pub day: u8,
}

/// `a` falls after `b`.
pub open spec fn is_after(a: Date, b: Date) -> bool {
    a.year > b.year || (a.year == b.year && (a.month > b.month || (a.month == b.month && a.day
        > b.day)))
}

/// `t` has between `min` and `max` characters.
pub open spec fn length_within(t: Seq<char>, min: nat, max: nat) -> bool {
    min <= t.len() <= max
}

/// `t`, when present, has between `min` and `max` characters.
pub open spec fn optional_within(t: Option<String>, min: nat, max: nat) -> bool {
    match t {
        Some(s) => length_within(s@, min, max),
        None => true,
    }
}

/// The field `name` with the rule `code` it breaks when `ok` fails, nothing
/// otherwise.
pub open spec fn fault(ok: bool, name: Seq<char>, code: Seq<char>) -> Seq<(Seq<char>, Seq<char>)> {
    if ok {
        seq![]
    } else {
        seq![(name, code)]
    }
}

/// The field names and rule codes of `v`.
pub open spec fn names(v: Seq<(&'static str, &'static str)>) -> Seq<(Seq<char>, Seq<char>)> {
    v.map_values(|f: (&'static str, &'static str)| (f.0@, f.1@))
}

fn within(t: &String, min: usize, max: usize) -> (r: bool)
    ensures
        r == length_within(t@, min as nat, max as nat),
{
    let n = t.as_str().unicode_len();
    min <= n && n <= max
}

fn optional(t: &Option<String>, min: usize, max: usize) -> (r: bool)
    ensures
        r == optional_within(*t, min as nat, max as nat),
{
    match t {
        Some(s) => within(s, min, max),
        None => true,
    }
}

fn note(faults: &mut Vec<(&'static str, &'static str)>, ok: bool, name: &'static str, code: &'static str)
    ensures
        names(final(faults)@) == names(old(faults)@) + fault(ok, name@, code@),
{
    let ghost before = names(faults@);
    if !ok {
        faults.push((name, code));
        assert(names(faults@) =~= before + fault(ok, name@, code@));
    } else {
        assert(names(faults@) =~= before + fault(ok, name@, code@));
    }
}

fn outcome(faults: Vec<(&'static str, &'static str)>) -> (r: Result<(), Vec<(&'static str, &'static str)>>)
    ensures
        faults@.len() == 0 ==> r is Ok,
        faults@.len() > 0 ==> (r matches Err(f) && f@ == faults@),
{
    if faults.len() == 0 {
        Ok(())
    } else {
        Err(faults)
    }
}

/// Code of the rule that a date of birth is not after today.
pub open spec fn future_code() -> Seq<char> {
    "date_not_in_future"@
}

/// Code of the rule on the number of characters of a field.
pub open spec fn length_code() -> Seq<char> {
    "length"@
}

/// Accepts a date of birth that is not after `today`; a later one breaks the
/// rule `date_not_in_future`.
pub fn date_not_in_future(date: &Date, today: &Date) -> (r: Result<(), &'static str>)
    ensures
        r is Ok <==> !is_after(*date, *today),
        r matches Err(code) ==> code@ == future_code(),
{
    if date.year > today.year || (date.year == today.year && (date.month > today.month || (
    date.month == today.month && date.day > today.day))) {
        Err("date_not_in_future")
    } else {
        Ok(())
    }
}

/// An address to be attached to a person.
#[derive(Debug)]
pub struct NewAddress {
    pub building: String,
    pub street: Option<String>,
    pub town_or_city: Option<String>,
    pub postcode: String,
}

/// The fields of `a` that break their length rule, in declaration order,
/// each with the code of that rule.
pub open spec fn address_faults(a: NewAddress) -> Seq<(Seq<char>, Seq<char>)> {
    fault(length_within(a.building@, 1, 64), "building"@, length_code()) + fault(
        optional_within(a.street, 1, 64),
        "street"@,
        length_code(),
    ) + fault(optional_within(a.town_or_city, 1, 64), "town_or_city"@, length_code()) + fault(
        length_within(a.postcode@, 1, 8),
        "postcode"@,
        length_code(),
    )
}

impl NewAddress {
    /// Accepts the address when every field has an allowed length, and names
    /// the offending fields and their rules otherwise.
    pub fn validate(&self) -> (r: Result<(), Vec<(&'static str, &'static str)>>)
        ensures
            r is Ok <==> address_faults(*self).len() == 0,
            r matches Err(f) ==> names(f@) == address_faults(*self),
    {
        let mut faults: Vec<(&'static str, &'static str)> = Vec::new();
        note(&mut faults, within(&self.building, 1, 64), "building", "length");
        note(&mut faults, optional(&self.street, 1, 64), "street", "length");
        note(&mut faults, optional(&self.town_or_city, 1, 64), "town_or_city", "length");
        note(&mut faults, within(&self.postcode, 1, 8), "postcode", "length");
        assert(names(faults@) =~= address_faults(*self));
        outcome(faults)
    }
}

/// A person to be created.
#[derive(Debug)]
pub struct NewPerson {
    pub first_name: String,
    pub family_name: String,
    pub date_of_birth: Date,
}

/// The fields of `p` that break their rule on `today`, in declaration order,
/// each with the code of that rule.
pub open spec fn person_faults(p: NewPerson, today: Date) -> Seq<(Seq<char>, Seq<char>)> {
    fault(length_within(p.first_name@, 1, 64), "first_name"@, length_code()) + fault(
        length_within(p.family_name@, 1, 64),
        "family_name"@,
        length_code(),
    ) + fault(!is_after(p.date_of_birth, today), "date_of_birth"@, future_code())
}

impl NewPerson {
    /// Accepts the person when both names have an allowed length and the date
    /// of birth is not after `today`, and names the offending fields and their rules otherwise.
    pub fn validate(&self, today: &Date) -> (r: Result<(), Vec<(&'static str, &'static str)>>)
        ensures
            r is Ok <==> person_faults(*self, *today).len() == 0,
            r matches Err(f) ==> names(f@) == person_faults(*self, *today),
    {
        let mut faults: Vec<(&'static str, &'static str)> = Vec::new();
        note(&mut faults, within(&self.first_name, 1, 64), "first_name", "length");
        note(&mut faults, within(&self.family_name, 1, 64), "family_name", "length");
        note(&mut faults, date_not_in_future(&self.date_of_birth, today).is_ok(), "date_of_birth", "date_not_in_future");
        assert(names(faults@) =~= person_faults(*self, *today));
        outcome(faults)
    }
}

/// Changes to a person; absent fields stay as they are.
#[derive(Debug)]
pub struct UpdatePerson {
    pub first_name: Option<String>,
    pub family_name: Option<String>,
    pub date_of_birth: Option<Date>,
}

/// The fields of `p` that break their rule on `today`, in declaration order,
/// each with the code of that rule.
pub open spec fn update_faults(p: UpdatePerson, today: Date) -> Seq<(Seq<char>, Seq<char>)> {
    fault(optional_within(p.first_name, 1, 64), "first_name"@, length_code()) + fault(
        optional_within(p.family_name, 1, 64),
        "family_name"@,
        length_code(),
    ) + fault(
        match p.date_of_birth {
            Some(d) => !is_after(d, today),
            None => true,
        },
        "date_of_birth"@,
        future_code(),
    )
}

impl UpdatePerson {
    /// Accepts the changes when every present field keeps its rule on
    /// `today`, and names the offending fields and their rules otherwise.
    pub fn validate(&self, today: &Date) -> (r: Result<(), Vec<(&'static str, &'static str)>>)
        ensures
            r is Ok <==> update_faults(*self, *today).len() == 0,
            r matches Err(f) ==> names(f@) == update_faults(*self, *today),
    {
        let mut faults: Vec<(&'static str, &'static str)> = Vec::new();
        note(&mut faults, optional(&self.first_name, 1, 64), "first_name", "length");
        note(&mut faults, optional(&self.family_name, 1, 64), "family_name", "length");
        let born_ok = match &self.date_of_birth {
            Some(d) => date_not_in_future(d, today).is_ok(),
            None => true,
        };
        note(&mut faults, born_ok, "date_of_birth", "date_not_in_future");
        assert(names(faults@) =~= update_faults(*self, *today));
        outcome(faults)
    }
}

} // verus!
