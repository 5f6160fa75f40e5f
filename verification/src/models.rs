//! Data models of the Customers domain.

use vstd::prelude::*;

verus! {

/// The characters of an optional text field.
pub open spec fn opt_view(o: Option<String>) -> Option<Seq<char>> {
    match o {
        Some(s) => Some(s@),
        None => None,
    }
}

/// The columns of a customer that may hold no value, in column order:
/// contact name, contact title, address, city, region, postal code, country,
/// phone and fax.
pub struct DetailsView {
    pub contact_name: Option<Seq<char>>,
    pub contact_title: Option<Seq<char>>,
    pub address: Option<Seq<char>>,
    pub city: Option<Seq<char>>,
    pub region: Option<Seq<char>>,
    pub postal_code: Option<Seq<char>>,
    pub country: Option<Seq<char>>,
    pub phone: Option<Seq<char>>,
    pub fax: Option<Seq<char>>,
}

/// A customer as text: its id, its company name and its optional details.
pub struct CustomerView {
    pub customer_id: Seq<char>,
    pub company_name: Seq<char>,
    pub details: DetailsView,
}

/// A customer record of the Northwind `Customers` table.
#[derive(Clone, Debug, PartialEq, Eq)]
pub struct Customer {
    pub customer_id: String,
    pub company_name: String,
    pub contact_name: Option<String>,
    pub contact_title: Option<String>,
    pub address: Option<String>,
    pub city: Option<String>,
    pub region: Option<String>,
    pub postal_code: Option<String>,
    pub country: Option<String>,
    pub phone: Option<String>,
    pub fax: Option<String>,
}

impl View for Customer {
    type V = CustomerView;

    open spec fn view(&self) -> CustomerView {
        CustomerView {
            customer_id: self.customer_id@,
            company_name: self.company_name@,
            details: DetailsView {
                contact_name: opt_view(self.contact_name),
                contact_title: opt_view(self.contact_title),
                address: opt_view(self.address),
                city: opt_view(self.city),
                region: opt_view(self.region),
                postal_code: opt_view(self.postal_code),
                country: opt_view(self.country),
                phone: opt_view(self.phone),
                fax: opt_view(self.fax),
            },
        }
    }
}

/// The column list of a customer, in the order of [`Customer`]'s fields: every
/// query that reads or writes whole customers names its columns through this.
pub const CUSTOMER_COLUMNS: &'static str = "CustomerID, CompanyName, ContactName, ContactTitle, Address, City, Region, PostalCode, Country, Phone, Fax";

impl Customer {
    /// The column list of a customer, in field order.
    pub const COLUMNS: &'static str = CUSTOMER_COLUMNS;
}

/// The payload that creates a customer (`POST /customers`). The id is chosen by
/// the client: Northwind ids are five-letter codes, not generated numbers.
#[derive(Clone, Debug, PartialEq, Eq)]
pub struct NewCustomer {
    pub customer_id: String,
    pub company_name: String,
    pub contact_name: Option<String>,
    pub contact_title: Option<String>,
    pub address: Option<String>,
    pub city: Option<String>,
    pub region: Option<String>,
    pub postal_code: Option<String>,
    pub country: Option<String>,
    pub phone: Option<String>,
    pub fax: Option<String>,
}

impl View for NewCustomer {
    type V = CustomerView;

    open spec fn view(&self) -> CustomerView {
        CustomerView {
            customer_id: self.customer_id@,
            company_name: self.company_name@,
            details: DetailsView {
                contact_name: opt_view(self.contact_name),
                contact_title: opt_view(self.contact_title),
                address: opt_view(self.address),
                city: opt_view(self.city),
                region: opt_view(self.region),
                postal_code: opt_view(self.postal_code),
                country: opt_view(self.country),
                phone: opt_view(self.phone),
                fax: opt_view(self.fax),
            },
        }
    }
}

/// What an update payload holds: the company name and the optional details.
pub struct UpdateView {
    pub company_name: Seq<char>,
    pub details: DetailsView,
}

/// The payload that replaces a customer (`PUT /customers/<id>`). It carries no
/// id: the id comes from the URL and cannot change.
#[derive(Clone, Debug, PartialEq, Eq)]
pub struct UpdateCustomer {
    pub company_name: String,
    pub contact_name: Option<String>,
    pub contact_title: Option<String>,
    pub address: Option<String>,
    pub city: Option<String>,
    pub region: Option<String>,
    pub postal_code: Option<String>,
    pub country: Option<String>,
    pub phone: Option<String>,
    pub fax: Option<String>,
}

impl View for UpdateCustomer {
    type V = UpdateView;

    open spec fn view(&self) -> UpdateView {
        UpdateView {
            company_name: self.company_name@,
            details: DetailsView {
                contact_name: opt_view(self.contact_name),
                contact_title: opt_view(self.contact_title),
                address: opt_view(self.address),
                city: opt_view(self.city),
                region: opt_view(self.region),
                postal_code: opt_view(self.postal_code),
                country: opt_view(self.country),
                phone: opt_view(self.phone),
                fax: opt_view(self.fax),
            },
        }
    }
}

/// One page of a listing, with the total count the pager needs.
#[derive(Debug)]
pub struct Paginated<T> {
    pub data: Vec<T>,
    pub total: i64,
    pub page: u32,
    pub page_size: u32,
}

} // verus!
