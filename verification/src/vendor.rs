//! The fixed vendor import map: the compiled-in table mapping each shared
//! frontend library to the URL it is served from.
//!
//! The table never changes at runtime; every call of the accessor yields the
//! same mapping.

use vstd::prelude::*;

use crate::string_map::StringMap;

verus! {

/// The mapping the vendor import map always holds.
pub open spec fn vendor_import_map_view() -> Map<Seq<char>, Seq<char>> {
    Map::empty().insert(
        "React"@,
        "/assets/root/js/vendors/react/18.3.1/umd/react.production.min.js"@,
    ).insert("react"@, "/assets/root/js/vendors/react/18.3.1/umd/react.production.min.js"@).insert(
        "react-dom"@,
        "/assets/root/js/vendors/react-dom/18.3.1/umd/react-dom.production.min.js"@,
    ).insert(
        "react-dom/server"@,
        "/assets/root/js/vendors/react-dom/18.3.1/umd/react-dom-server.browser.production.min.js"@,
    ).insert(
        "single-spa"@,
        "/assets/root/js/vendors/single-spa/6.0.1/system/single-spa.min.js"@,
    ).insert("lodash"@, "/assets/root/js/vendors/lodash/4.17.21/lodash.min.js"@).insert(
        "axios"@,
        "/assets/root/js/vendors/axios/0.28.1/axios.min.js"@,
    ).insert("antd"@, "/assets/root/js/vendors/antd/5.19.3/antd.min.js"@).insert(
        "immutable"@,
        "/assets/root/js/vendors/immutable/3.7.6/immutable.min.js"@,
    ).insert(
        "@ant-design/icons"@,
        "/assets/root/js/vendors/ant-design-icons/5.4.0/index.umd.min.js"@,
    ).insert(
        "react-virtualized"@,
        "/assets/root/js/vendors/react-virtualized/9.22.3/react-virtualized.min.js"@,
    ).insert(
        "react-beautiful-dnd"@,
        "/assets/root/js/vendors/react-beautiful-dnd/13.1.0/react-beautiful-dnd.min.js"@,
    ).insert(
        "react-query"@,
        "/assets/root/js/vendors/react-query/3.39.3/react-query.production.js"@,
    ).insert("dayjs"@, "/assets/root/js/vendors/dayjs/1.11.12/dayjs.min.js"@).insert(
        "luxon"@,
        "/assets/root/js/vendors/luxon/3.4.4/dayjs.min.js"@,
    ).insert("moment"@, "/assets/root/js/vendors/moment/2.29.1/moment.min.js"@)
}

/// Builds the vendor import map. The result is always the fixed table: two
/// calls yield the same mapping.
pub fn get_lib_import_map() -> (r: StringMap)
    ensures
        r@ == vendor_import_map_view(),
        r.wf(),
{
    let mut map = StringMap::new();
    map.insert(
        "React".to_owned(),
        "/assets/root/js/vendors/react/18.3.1/umd/react.production.min.js".to_owned(),
    );
    map.insert(
        "react".to_owned(),
        "/assets/root/js/vendors/react/18.3.1/umd/react.production.min.js".to_owned(),
    );
    map.insert(
        "react-dom".to_owned(),
        "/assets/root/js/vendors/react-dom/18.3.1/umd/react-dom.production.min.js".to_owned(),
    );
    map.insert(
        "react-dom/server".to_owned(),
        "/assets/root/js/vendors/react-dom/18.3.1/umd/react-dom-server.browser.production.min.js".to_owned(),
    );
    map.insert(
        "single-spa".to_owned(),
        "/assets/root/js/vendors/single-spa/6.0.1/system/single-spa.min.js".to_owned(),
    );
    map.insert(
        "lodash".to_owned(),
        "/assets/root/js/vendors/lodash/4.17.21/lodash.min.js".to_owned(),
    );
    map.insert("axios".to_owned(), "/assets/root/js/vendors/axios/0.28.1/axios.min.js".to_owned());
    map.insert("antd".to_owned(), "/assets/root/js/vendors/antd/5.19.3/antd.min.js".to_owned());
    map.insert(
        "immutable".to_owned(),
        "/assets/root/js/vendors/immutable/3.7.6/immutable.min.js".to_owned(),
    );
    map.insert(
        "@ant-design/icons".to_owned(),
        "/assets/root/js/vendors/ant-design-icons/5.4.0/index.umd.min.js".to_owned(),
    );
    map.insert(
        "react-virtualized".to_owned(),
        "/assets/root/js/vendors/react-virtualized/9.22.3/react-virtualized.min.js".to_owned(),
    );
    map.insert(
        "react-beautiful-dnd".to_owned(),
        "/assets/root/js/vendors/react-beautiful-dnd/13.1.0/react-beautiful-dnd.min.js".to_owned(),
    );
    map.insert(
        "react-query".to_owned(),
        "/assets/root/js/vendors/react-query/3.39.3/react-query.production.js".to_owned(),
    );
    map.insert(
        "dayjs".to_owned(),
        "/assets/root/js/vendors/dayjs/1.11.12/dayjs.min.js".to_owned(),
    );
    map.insert("luxon".to_owned(), "/assets/root/js/vendors/luxon/3.4.4/dayjs.min.js".to_owned());
    map.insert(
        "moment".to_owned(),
        "/assets/root/js/vendors/moment/2.29.1/moment.min.js".to_owned(),
    );
    map
}

/// The vendor import map is stable and idempotent: any two maps the accessor
/// returns describe the same mapping, with the same keys and the same URLs.
pub proof fn lemma_vendor_map_idempotent(a: &StringMap, b: &StringMap)
    requires
        a@ == vendor_import_map_view(),
        b@ == vendor_import_map_view(),
    ensures
        a@ == b@,
        a@.dom() == b@.dom(),
        forall|k: Seq<char>| a@.contains_key(k) ==> a@[k] == b@[k],
{
}

} // verus!
