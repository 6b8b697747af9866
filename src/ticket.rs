use vstd::prelude::*;

verus! {

/// Sale state of a session or ticket type.
#[derive(Clone, Debug)]
pub struct SaleFlag {
    pub number: usize,
    pub display_name: String,
}

/// One ticket type of a session.
#[derive(Clone, Debug)]
#[allow(non_snake_case)]
pub struct ScreenTicketInfo {
    /// Sale start, as a Unix timestamp.
    pub saleStart: usize,
    /// Sale end, as a Unix timestamp.
    pub saleEnd: usize,
    pub id: usize,
    pub project_id: usize,
    /// Price in cents.
    pub price: usize,
    pub desc: String,
    pub sale_start: String,
    pub sale_end: String,
    /// The vendor's `type` field.
    pub ticket_type: usize,
    pub sale_type: usize,
    pub is_sale: usize,
    pub num: usize,
    pub sale_flag: SaleFlag,
    /// Whether the ticket type can be bought now.
    pub clickable: bool,
    pub sale_flag_number: usize,
    pub screen_name: String,
}

/// One session of a project.
#[derive(Clone, Debug)]
pub struct ScreenInfo {
    pub sale_flag: SaleFlag,
    pub id: usize,
    pub start_time: usize,
    pub name: String,
    pub ticket_type: usize,
    pub screen_type: usize,
    pub delivery_type: usize,
    pub pick_seat: usize,
    pub ticket_list: Vec<ScreenTicketInfo>,
    /// Whether the session can be bought now.
    pub clickable: bool,
    pub sale_end: usize,
    pub sale_start: usize,
    pub sale_flag_number: usize,
    pub show_date: String,
}

/// One title/content pair of a project's basic information.
#[derive(Clone, Debug)]
pub struct BaseInfoItem {
    pub title: String,
    pub content: String,
}

} // verus!
