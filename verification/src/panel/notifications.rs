//! User notifications.

use vstd::prelude::*;

verus! {

#[derive(Debug)]
pub struct ListNotificationsQuery {
    pub unread_only: Option<bool>,
    pub limit:       Option<i64>,
}

/// The notifications a listing asks for: at most 200 (50 when not asked),
/// and whether only unread ones are wanted (no when not asked).
pub fn notification_query(q: &ListNotificationsQuery) -> (r: (i64, bool))
    ensures
        r.0 == (match q.limit {
            Some(l) => if l < 200 { l } else { 200 },
            None => 50,
        }),
        r.1 == (match q.unread_only {
            Some(b) => b,
            None => false,
        }),
{
    let limit = match q.limit {
        Some(l) => if l < 200 { l } else { 200 },
        None => 50,
    };
    let unread = match q.unread_only {
        Some(b) => b,
        None => false,
    };
    (limit, unread)
}

} // verus!
