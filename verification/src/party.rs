//! Parties to an invoice and their postal addresses.

use vstd::prelude::*;

verus! {

/// Why a builder could not produce its entity.
#[derive(Debug)]
pub enum BuildError {
    /// A required field was never set; the payload is the field's name.
    MissingField(&'static str),
}

impl BuildError {
    /// The name of the field that was missing.
    pub open spec fn field(self) -> Seq<char> {
        match self {
            BuildError::MissingField(name) => name@,
        }
    }

    /// The name of the field that was missing.
    pub fn field_name(&self) -> (r: &'static str)
        ensures
            r@ == self.field(),
    {
        match self {
            BuildError::MissingField(name) => name,
        }
    }
}

/// The text of an optional string.
pub open spec fn opt_text(o: Option<String>) -> Option<Seq<char>> {
    match o {
        Some(s) => Some(s@),
        None => None,
    }
}

/// The mathematical value of an [`Address`].
pub struct AddressView {
    pub line1: Seq<char>,
    pub line2: Option<Seq<char>>,
    pub city: Seq<char>,
    pub province_code: Seq<char>,
    pub postal_code: Seq<char>,
}

/// A postal address. Immutable once built.
#[derive(Debug)]
pub struct Address {
    line1: String,
    line2: Option<String>,
    city: String,
    province_code: String,
    postal_code: String,
}

impl View for Address {
    type V = AddressView;

    closed spec fn view(&self) -> AddressView {
        AddressView {
            line1: self.line1@,
            line2: opt_text(self.line2),
            city: self.city@,
            province_code: self.province_code@,
            postal_code: self.postal_code@,
        }
    }
}

impl Address {
    /// First line of the address.
    pub fn line1(&self) -> (r: &str)
        ensures
            r@ == self@.line1,
    {
        self.line1.as_str()
    }

    /// Second line of the address, if any.
    pub fn line2(&self) -> (r: &Option<String>)
        ensures
            opt_text(*r) == self@.line2,
    {
        &self.line2
    }

    /// City.
    pub fn city(&self) -> (r: &str)
        ensures
            r@ == self@.city,
    {
        self.city.as_str()
    }

    /// Province or state code.
    pub fn province_code(&self) -> (r: &str)
        ensures
            r@ == self@.province_code,
    {
        self.province_code.as_str()
    }

    /// Postal code.
    pub fn postal_code(&self) -> (r: &str)
        ensures
            r@ == self@.postal_code,
    {
        self.postal_code.as_str()
    }
}

/// What an [`AddressBuilder`] has been given so far.
pub struct AddressBuilderView {
    pub line1: Option<Seq<char>>,
    pub line2: Option<Seq<char>>,
    pub city: Option<Seq<char>>,
    pub province_code: Option<Seq<char>>,
    pub postal_code: Option<Seq<char>>,
}

impl AddressBuilderView {
    /// Whether every required field has been set.
    pub open spec fn complete(self) -> bool {
        self.line1 is Some && self.city is Some && self.province_code is Some
            && self.postal_code is Some
    }

    /// The name of the first required field, in declared order, that has not
    /// been set. Meaningful where the builder is not complete.
    pub open spec fn first_missing(self) -> Seq<char> {
        if self.line1 is None {
            "line1"@
        } else if self.city is None {
            "city"@
        } else if self.province_code is None {
            "province_code"@
        } else {
            "postal_code"@
        }
    }

    /// The address that a complete builder yields.
    pub open spec fn built(self) -> AddressView {
        AddressView {
            line1: self.line1->Some_0,
            line2: self.line2,
            city: self.city->Some_0,
            province_code: self.province_code->Some_0,
            postal_code: self.postal_code->Some_0,
        }
    }
}

/// Accumulates the fields of an [`Address`]; consumed by
/// [`build`](AddressBuilder::build).
#[derive(Debug)]
pub struct AddressBuilder {
    line1: Option<String>,
    line2: Option<String>,
    city: Option<String>,
    province_code: Option<String>,
    postal_code: Option<String>,
}

impl View for AddressBuilder {
    type V = AddressBuilderView;

    closed spec fn view(&self) -> AddressBuilderView {
        AddressBuilderView {
            line1: opt_text(self.line1),
            line2: opt_text(self.line2),
            city: opt_text(self.city),
            province_code: opt_text(self.province_code),
            postal_code: opt_text(self.postal_code),
        }
    }
}

impl Default for AddressBuilder {
    /// A builder with no field set.
    fn default() -> (r: AddressBuilder)
        ensures
            r@ == (AddressBuilderView {
                line1: None,
                line2: None,
                city: None,
                province_code: None,
                postal_code: None,
            }),
    {
        AddressBuilder { line1: None, line2: None, city: None, province_code: None, postal_code: None }
    }
}

impl AddressBuilder {
    /// Sets the first line; a later call replaces an earlier one.
    pub fn line1(self, value: &str) -> (r: AddressBuilder)
        ensures
            r@ == (AddressBuilderView { line1: Some(value@), ..self@ }),
    {
        AddressBuilder { line1: Some(value.to_owned()), ..self }
    }

    /// Sets the second line; a later call replaces an earlier one.
    pub fn line2(self, value: &str) -> (r: AddressBuilder)
        ensures
            r@ == (AddressBuilderView { line2: Some(value@), ..self@ }),
    {
        AddressBuilder { line2: Some(value.to_owned()), ..self }
    }

    /// Sets the city; a later call replaces an earlier one.
    pub fn city(self, value: &str) -> (r: AddressBuilder)
        ensures
            r@ == (AddressBuilderView { city: Some(value@), ..self@ }),
    {
        AddressBuilder { city: Some(value.to_owned()), ..self }
    }

    /// Sets the province code; a later call replaces an earlier one.
    pub fn province_code(self, value: &str) -> (r: AddressBuilder)
        ensures
            r@ == (AddressBuilderView { province_code: Some(value@), ..self@ }),
    {
        AddressBuilder { province_code: Some(value.to_owned()), ..self }
    }

    /// Sets the postal code; a later call replaces an earlier one.
    pub fn postal_code(self, value: &str) -> (r: AddressBuilder)
        ensures
            r@ == (AddressBuilderView { postal_code: Some(value@), ..self@ }),
    {
        AddressBuilder { postal_code: Some(value.to_owned()), ..self }
    }

    /// Produces the address, or names the first required field, in declared
    /// order, that was never set.
    pub fn build(self) -> (r: Result<Address, BuildError>)
        ensures
            r is Ok <==> self@.complete(),
            r matches Ok(address) ==> address@ == self@.built(),
            r matches Err(e) ==> e.field() == self@.first_missing(),
    {
        let line1 = match self.line1 {
            Some(value) => value,
            None => {
                return Err(BuildError::MissingField("line1"));
            },
        };
        let city = match self.city {
            Some(value) => value,
            None => {
                return Err(BuildError::MissingField("city"));
            },
        };
        let province_code = match self.province_code {
            Some(value) => value,
            None => {
                return Err(BuildError::MissingField("province_code"));
            },
        };
        let postal_code = match self.postal_code {
            Some(value) => value,
            None => {
                return Err(BuildError::MissingField("postal_code"));
            },
        };
        Ok(Address { line1, line2: self.line2, city, province_code, postal_code })
    }
}

/// The mathematical value of a [`Party`].
pub struct PartyView {
    pub name: Seq<char>,
    pub phone: Option<Seq<char>>,
    pub email: Option<Seq<char>>,
    pub address: Option<AddressView>,
}

/// The view of an optional address.
pub open spec fn opt_address(o: Option<Address>) -> Option<AddressView> {
    match o {
        Some(a) => Some(a@),
        None => None,
    }
}

/// A party to an invoice: its sender or its receiver. Only the name is
/// required; a party may do without an address. Immutable once built.
#[derive(Debug)]
pub struct Party {
    name: String,
    phone: Option<String>,
    email: Option<String>,
    address: Option<Address>,
}

impl View for Party {
    type V = PartyView;

    closed spec fn view(&self) -> PartyView {
        PartyView {
            name: self.name@,
            phone: opt_text(self.phone),
            email: opt_text(self.email),
            address: opt_address(self.address),
        }
    }
}

impl Party {
    /// Name of the party.
    pub fn name(&self) -> (r: &str)
        ensures
            r@ == self@.name,
    {
        self.name.as_str()
    }

    /// Telephone number, if any.
    pub fn phone(&self) -> (r: &Option<String>)
        ensures
            opt_text(*r) == self@.phone,
    {
        &self.phone
    }

    /// E-mail address, if any.
    pub fn email(&self) -> (r: &Option<String>)
        ensures
            opt_text(*r) == self@.email,
    {
        &self.email
    }

    /// Postal address, if any.
    pub fn address(&self) -> (r: &Option<Address>)
        ensures
            opt_address(*r) == self@.address,
    {
        &self.address
    }
}

/// What a [`PartyBuilder`] has been given so far.
pub struct PartyBuilderView {
    pub name: Option<Seq<char>>,
    pub phone: Option<Seq<char>>,
    pub email: Option<Seq<char>>,
    pub address: Option<AddressView>,
}

impl PartyBuilderView {
    /// Whether every required field has been set.
    pub open spec fn complete(self) -> bool {
        self.name is Some
    }

    /// The party that a complete builder yields.
    pub open spec fn built(self) -> PartyView {
        PartyView {
            name: self.name->Some_0,
            phone: self.phone,
            email: self.email,
            address: self.address,
        }
    }
}

/// Accumulates the fields of a [`Party`]; consumed by
/// [`build`](PartyBuilder::build).
#[derive(Debug)]
pub struct PartyBuilder {
    name: Option<String>,
    phone: Option<String>,
    email: Option<String>,
    address: Option<Address>,
}

impl View for PartyBuilder {
    type V = PartyBuilderView;

    closed spec fn view(&self) -> PartyBuilderView {
        PartyBuilderView {
            name: opt_text(self.name),
            phone: opt_text(self.phone),
            email: opt_text(self.email),
            address: opt_address(self.address),
        }
    }
}

impl Default for PartyBuilder {
    /// A builder with no field set.
    fn default() -> (r: PartyBuilder)
        ensures
            r@ == (PartyBuilderView { name: None, phone: None, email: None, address: None }),
    {
        PartyBuilder { name: None, phone: None, email: None, address: None }
    }
}

impl PartyBuilder {
    /// Sets the name; a later call replaces an earlier one.
    pub fn name(self, value: &str) -> (r: PartyBuilder)
        ensures
            r@ == (PartyBuilderView { name: Some(value@), ..self@ }),
    {
        PartyBuilder { name: Some(value.to_owned()), ..self }
    }

    /// Sets the telephone number; a later call replaces an earlier one.
    pub fn phone(self, value: &str) -> (r: PartyBuilder)
        ensures
            r@ == (PartyBuilderView { phone: Some(value@), ..self@ }),
    {
        PartyBuilder { phone: Some(value.to_owned()), ..self }
    }

    /// Sets the e-mail address; a later call replaces an earlier one.
    pub fn email(self, value: &str) -> (r: PartyBuilder)
        ensures
            r@ == (PartyBuilderView { email: Some(value@), ..self@ }),
    {
        PartyBuilder { email: Some(value.to_owned()), ..self }
    }

    /// Sets the postal address; a later call replaces an earlier one.
    pub fn address(self, value: Address) -> (r: PartyBuilder)
        ensures
            r@ == (PartyBuilderView { address: Some(value@), ..self@ }),
    {
        PartyBuilder { address: Some(value), ..self }
    }

    /// Produces the party, or reports that the name was never set.
    pub fn build(self) -> (r: Result<Party, BuildError>)
        ensures
            r is Ok <==> self@.complete(),
            r matches Ok(party) ==> party@ == self@.built(),
            r matches Err(e) ==> e.field() == "name"@,
    {
        let name = match self.name {
            Some(value) => value,
            None => {
                return Err(BuildError::MissingField("name"));
            },
        };
        Ok(Party { name, phone: self.phone, email: self.email, address: self.address })
    }
}

} // verus!
