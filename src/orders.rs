use vstd::prelude::*;

verus! {

/// Picture of an order's item.
#[derive(Clone, Debug)]
pub struct ImageInfo {
    pub url: String,
}

/// The item an order is for.
#[derive(Clone, Debug)]
pub struct ItemInfo {
    pub name: String,
    pub image: Option<String>,
    pub screen_id: String,
    pub screen_name: String,
    pub screen_start_time: String,
    pub screen_end_time: String,
}

/// One order of the account.
#[derive(Clone, Debug)]
pub struct Order {
    pub order_id: String,
    pub order_type: i32,
    pub item_id: i64,
    pub item_info: ItemInfo,
    pub total_money: i64,
    pub count: i32,
    pub pay_money: i64,
    pub pay_channel: Option<String>,
    pub status: i32,
    pub sub_status: i32,
    pub ctime: String,
    pub img: ImageInfo,
    pub sub_status_name: String,
}

/// A page of orders.
#[derive(Clone, Debug)]
pub struct OrderData {
    pub total: i32,
    pub list: Vec<Order>,
}

/// The order-list reply.
#[derive(Clone, Debug)]
pub struct OrderResponse {
    pub errno: i32,
    pub errtag: i32,
    pub msg: String,
    pub data: OrderData,
}

} // verus!
