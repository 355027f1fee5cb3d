//! What the entity and model derivations read from a type definition: the
//! field that names an entity, the fields (and aliases) its deletion query
//! is made of, and the route of a model.

use vstd::prelude::*;
use crate::api::{body_is_json, is_json, ApiRequest, ApiRequestView, EntityBody, EntityBodyView, Method};
use crate::network::{RemoteAddr, route_url, route_url_text};

verus! {

/// One item inside the parentheses of a field attribute.
#[derive(Debug, Clone)]
pub enum MetaItem {
    /// A bare path such as `primary_name`, with its single identifier if it has one.
    Path(Option<String>),
    /// A list such as `delete_query_attr("name")`: its path's identifier and
    /// the text of its tokens.
    List(Option<String>, String),
    /// A `name = value` item.
    NameValue,
}

/// An attribute of a field: the identifier of its path, and its items when
/// its arguments parse as a comma separated list.
#[derive(Debug, Clone)]
pub struct FieldAttribute {
    pub path_ident: Option<String>,
    pub args: Option<Vec<MetaItem>>,
}

/// A field of a struct: its name (none for a tuple field) and attributes.
#[derive(Debug, Clone)]
pub struct FieldDef {
    pub ident: Option<String>,
    pub attrs: Vec<FieldAttribute>,
}

/// Value of a [`MetaItem`].
pub enum MetaItemView {
    Path(Option<Seq<char>>),
    List(Option<Seq<char>>, Seq<char>),
    NameValue,
}

/// Value of a [`FieldAttribute`].
pub struct FieldAttributeView {
    pub path_ident: Option<Seq<char>>,
    pub args: Option<Seq<MetaItemView>>,
}

/// Value of a [`FieldDef`].
pub struct FieldDefView {
    pub ident: Option<Seq<char>>,
    pub attrs: Seq<FieldAttributeView>,
}

impl View for MetaItem {
    type V = MetaItemView;

    open spec fn view(&self) -> MetaItemView {
        match self {
            MetaItem::Path(p) => MetaItemView::Path(p.deep_view()),
            MetaItem::List(p, t) => MetaItemView::List(p.deep_view(), t@),
            MetaItem::NameValue => MetaItemView::NameValue,
        }
    }
}

impl DeepView for MetaItem {
    type V = MetaItemView;

    open spec fn deep_view(&self) -> MetaItemView {
        self@
    }
}

impl View for FieldAttribute {
    type V = FieldAttributeView;

    open spec fn view(&self) -> FieldAttributeView {
        FieldAttributeView {
            path_ident: self.path_ident.deep_view(),
            args: match self.args {
                Some(v) => Some(v.deep_view()),
                None => None,
            },
        }
    }
}

impl DeepView for FieldAttribute {
    type V = FieldAttributeView;

    open spec fn deep_view(&self) -> FieldAttributeView {
        self@
    }
}

impl View for FieldDef {
    type V = FieldDefView;

    open spec fn view(&self) -> FieldDefView {
        FieldDefView { ident: self.ident.deep_view(), attrs: self.attrs.deep_view() }
    }
}

impl DeepView for FieldDef {
    type V = FieldDefView;

    open spec fn deep_view(&self) -> FieldDefView {
        self@
    }
}

/// A deletion query parameter being read from one attribute: the field it
/// takes its value from and the alias it is sent under.
pub struct DeleteQueryAttrView {
    pub ident: Option<Seq<char>>,
    pub alias: Option<Seq<char>>,
}

pub open spec fn empty_delete_query_attr() -> DeleteQueryAttrView {
    DeleteQueryAttrView { ident: None, alias: None }
}

/// One item of an `mgw_conf` attribute of field `field`: `primary_name` makes
/// the field a name field; `delete_query_attr` makes it the deletion
/// parameter unless one is already set; `delete_query_attr(..)` gives it an
/// alias unless one is already set.
pub open spec fn meta_step(
    acc: (DeleteQueryAttrView, Seq<Seq<char>>),
    field: Seq<char>,
    m: MetaItemView,
) -> (DeleteQueryAttrView, Seq<Seq<char>>) {
    match m {
        MetaItemView::Path(Some(name)) => if name == "primary_name"@ {
            (acc.0, acc.1.push(field))
        } else if name == "delete_query_attr"@ && acc.0.ident is None {
            (DeleteQueryAttrView { ident: Some(field), alias: acc.0.alias }, acc.1)
        } else {
            acc
        },
        MetaItemView::List(Some(name), tokens) => if name == "delete_query_attr"@ && acc.0.alias is None {
            (DeleteQueryAttrView { ident: Some(field), alias: Some(tokens) }, acc.1)
        } else {
            acc
        },
        _ => acc,
    }
}

pub open spec fn metas_fold(
    ms: Seq<MetaItemView>,
    field: Seq<char>,
    acc: (DeleteQueryAttrView, Seq<Seq<char>>),
) -> (DeleteQueryAttrView, Seq<Seq<char>>)
    decreases ms.len(),
{
    if ms.len() == 0 {
        acc
    } else {
        meta_step(metas_fold(ms.drop_last(), field, acc), field, ms.last())
    }
}

/// One attribute of field `field`: only `mgw_conf` attributes whose arguments
/// parse count, and each of them adds one deletion parameter.
pub open spec fn attr_step(
    acc: (Seq<Seq<char>>, Seq<DeleteQueryAttrView>),
    field: Seq<char>,
    a: FieldAttributeView,
) -> (Seq<Seq<char>>, Seq<DeleteQueryAttrView>) {
    if a.path_ident != Some("mgw_conf"@) {
        acc
    } else {
        match a.args {
            None => acc,
            Some(ms) => {
                let r = metas_fold(ms, field, (empty_delete_query_attr(), acc.0));
                (r.1, acc.1.push(r.0))
            },
        }
    }
}

pub open spec fn attrs_fold(
    attrs: Seq<FieldAttributeView>,
    field: Seq<char>,
    acc: (Seq<Seq<char>>, Seq<DeleteQueryAttrView>),
) -> (Seq<Seq<char>>, Seq<DeleteQueryAttrView>)
    decreases attrs.len(),
{
    if attrs.len() == 0 {
        acc
    } else {
        attr_step(attrs_fold(attrs.drop_last(), field, acc), field, attrs.last())
    }
}

/// One field: only named fields count.
pub open spec fn field_step(
    acc: (Seq<Seq<char>>, Seq<DeleteQueryAttrView>),
    f: FieldDefView,
) -> (Seq<Seq<char>>, Seq<DeleteQueryAttrView>) {
    match f.ident {
        Some(name) => attrs_fold(f.attrs, name, acc),
        None => acc,
    }
}

/// The name fields and deletion parameters of a struct's fields, in order.
pub open spec fn fields_fold(fs: Seq<FieldDefView>) -> (Seq<Seq<char>>, Seq<DeleteQueryAttrView>)
    decreases fs.len(),
{
    if fs.len() == 0 {
        (Seq::empty(), Seq::empty())
    } else {
        field_step(fields_fold(fs.drop_last()), fs.last())
    }
}

/// An alias is sent without its first and last character (the quotes of a
/// string literal), which must be one byte each.
pub open spec fn alias_ok(a: Seq<char>) -> bool {
    &&& a.len() >= 2
    &&& (a[0] as u32) < 128
    &&& (a[a.len() - 1] as u32) < 128
}

/// A deletion parameter can be generated: it has a field, and its alias, if
/// any, is well formed.
pub open spec fn delete_query_ok(d: DeleteQueryAttrView) -> bool {
    &&& d.ident is Some
    &&& d.alias matches Some(a) ==> alias_ok(a)
}

/// The name a deletion parameter is sent under: its unquoted alias, or its field's name.
pub open spec fn delete_query_name(d: DeleteQueryAttrView) -> Seq<char> {
    match d.alias {
        Some(a) => a.subrange(1, a.len() - 1),
        None => d.ident->0,
    }
}

/// What an entity derivation generates from: the field that names the entity
/// (the first name field, if any) and the deletion parameters in order, each
/// as the name it is sent under and the field it takes its value from.
#[derive(Debug, Clone)]
pub struct EntityDerivePlan {
    pub primary_name: Option<String>,
    pub delete_query: Vec<(String, String)>,
}

/// The fields of an entity (`None` when the type is not a struct with named
/// fields) can be derived from: every deletion parameter can be generated.
pub open spec fn derivable(data: Option<Seq<FieldDefView>>) -> bool {
    match data {
        Some(fs) => all_delete_queries_ok(fields_fold(fs).1),
        None => true,
    }
}

/// Every deletion parameter can be generated.
pub open spec fn all_delete_queries_ok(ds: Seq<DeleteQueryAttrView>) -> bool {
    forall|i: int| 0 <= i < ds.len() ==> delete_query_ok(#[trigger] ds[i])
}

/// The plan of an entity derivation.
pub open spec fn plan_spec(data: Option<Seq<FieldDefView>>, p: EntityDerivePlan) -> bool {
    let r = match data {
        Some(fs) => fields_fold(fs),
        None => (Seq::empty(), Seq::empty()),
    };
    &&& (r.0.len() > 0 ==> (p.primary_name matches Some(n) && n@ == r.0[0]))
    &&& (r.0.len() == 0 ==> p.primary_name is None)
    &&& p.delete_query@.len() == r.1.len()
    &&& forall|i: int| 0 <= i < r.1.len() ==> {
        &&& (#[trigger] p.delete_query@[i]).0@ == delete_query_name(r.1[i])
        &&& p.delete_query@[i].1@ == r.1[i].ident->0
    }
}

/// Deletion parameter being read from one attribute.
pub struct DeleteQueryAttr {
    pub ident: Option<String>,
    pub alias: Option<String>,
}

impl View for DeleteQueryAttr {
    type V = DeleteQueryAttrView;

    open spec fn view(&self) -> DeleteQueryAttrView {
        DeleteQueryAttrView { ident: self.ident.deep_view(), alias: self.alias.deep_view() }
    }
}

impl DeepView for DeleteQueryAttr {
    type V = DeleteQueryAttrView;

    open spec fn deep_view(&self) -> DeleteQueryAttrView {
        self@
    }
}

fn text_is(s: &String, lit: &str) -> (r: bool)
    ensures
        r == (s@ == lit@),
{
    *s == String::from_str(lit)
}

/// Reads the items of one `mgw_conf` attribute of field `field`.
fn read_metas(ms: &Vec<MetaItem>, field: &String, primary: &mut Vec<String>) -> (dq: DeleteQueryAttr)
    ensures
        (dq@, final(primary).deep_view()) == metas_fold(ms.deep_view(), field@, (empty_delete_query_attr(), old(primary).deep_view())),
{
    let mut dq = DeleteQueryAttr { ident: None, alias: None };
    let ghost start = (empty_delete_query_attr(), old(primary).deep_view());
    let mut i: usize = 0;
    assert(ms.deep_view().subrange(0, 0) =~= Seq::<MetaItemView>::empty());
    while i < ms.len()
        invariant
            i <= ms@.len(),
            (dq@, primary.deep_view()) == metas_fold(ms.deep_view().subrange(0, i as int), field@, start),
        decreases ms@.len() - i,
    {
        proof {
            assert(ms.deep_view().subrange(0, i + 1).drop_last() =~= ms.deep_view().subrange(0, i as int));
        }
        match &ms[i] {
            MetaItem::Path(Some(name)) => {
                if text_is(name, "primary_name") {
                    let ghost before = primary.deep_view();
                    primary.push(field.clone());
                    assert(primary.deep_view() =~= before.push(field@));
                } else if text_is(name, "delete_query_attr") {
                    if dq.ident.is_none() {
                        dq.ident = Some(field.clone());
                    }
                }
            },
            MetaItem::List(Some(name), tokens) => {
                if text_is(name, "delete_query_attr") {
                    if dq.alias.is_none() {
                        dq.alias = Some(tokens.clone());
                        dq.ident = Some(field.clone());
                    }
                }
            },
            _ => {},
        }
        i = i + 1;
    }
    assert(ms.deep_view().subrange(0, ms@.len() as int) =~= ms.deep_view());
    dq
}

/// Reads the attributes of field `field`.
fn read_attrs(attrs: &Vec<FieldAttribute>, field: &String, primary: &mut Vec<String>, dqs: &mut Vec<DeleteQueryAttr>)
    ensures
        (final(primary).deep_view(), final(dqs).deep_view()) == attrs_fold(
            attrs.deep_view(),
            field@,
            (old(primary).deep_view(), old(dqs).deep_view()),
        ),
{
    let ghost start = (old(primary).deep_view(), old(dqs).deep_view());
    let mut i: usize = 0;
    assert(attrs.deep_view().subrange(0, 0) =~= Seq::<FieldAttributeView>::empty());
    while i < attrs.len()
        invariant
            i <= attrs@.len(),
            (primary.deep_view(), dqs.deep_view()) == attrs_fold(attrs.deep_view().subrange(0, i as int), field@, start),
        decreases attrs@.len() - i,
    {
        proof {
            assert(attrs.deep_view().subrange(0, i + 1).drop_last() =~= attrs.deep_view().subrange(0, i as int));
        }
        let a = &attrs[i];
        let is_ours = match &a.path_ident {
            Some(p) => text_is(p, "mgw_conf"),
            None => false,
        };
        if is_ours {
            if let Some(ms) = &a.args {
                let dq = read_metas(ms, field, primary);
                let ghost before = dqs.deep_view();
                dqs.push(dq);
                assert(dqs.deep_view() =~= before.push(dq@));
            }
        }
        i = i + 1;
    }
    assert(attrs.deep_view().subrange(0, attrs@.len() as int) =~= attrs.deep_view());
}

/// The unquoted alias: without its first and last character.
fn unquote(a: &String) -> (r: String)
    requires
        alias_ok(a@),
    ensures
        r@ == a@.subrange(1, a@.len() - 1),
{
    let n = a.as_str().unicode_len();
    let inner = a.as_str().substring_char(1, n - 1);
    String::from_str(inner)
}

/// Reads an entity's fields (`None` when the type is not a struct with named
/// fields) into the plan of its derivation.
pub fn derive_entity(data: &Option<Vec<FieldDef>>) -> (p: EntityDerivePlan)
    requires
        derivable(match data { Some(fs) => Some(fs.deep_view()), None => None }),
    ensures
        plan_spec(match data { Some(fs) => Some(fs.deep_view()), None => None }, p),
{
    let mut primary: Vec<String> = Vec::new();
    let mut dqs: Vec<DeleteQueryAttr> = Vec::new();
    if let Some(fields) = data {
        let mut i: usize = 0;
        assert(fields.deep_view().subrange(0, 0) =~= Seq::<FieldDefView>::empty());
        assert(primary.deep_view() =~= Seq::<Seq<char>>::empty());
        assert(dqs.deep_view() =~= Seq::<DeleteQueryAttrView>::empty());
        while i < fields.len()
            invariant
                i <= fields@.len(),
                (primary.deep_view(), dqs.deep_view()) == fields_fold(fields.deep_view().subrange(0, i as int)),
            decreases fields@.len() - i,
        {
            proof {
                assert(fields.deep_view().subrange(0, i + 1).drop_last() =~= fields.deep_view().subrange(0, i as int));
            }
            let f = &fields[i];
            if let Some(name) = &f.ident {
                read_attrs(&f.attrs, name, &mut primary, &mut dqs);
            }
            i = i + 1;
        }
        assert(fields.deep_view().subrange(0, fields@.len() as int) =~= fields.deep_view());
        assert(dqs.deep_view() == fields_fold(fields.deep_view()).1);
        assert(all_delete_queries_ok(dqs.deep_view()));
    } else {
        assert(primary.deep_view() =~= Seq::<Seq<char>>::empty());
        assert(dqs.deep_view() =~= Seq::<DeleteQueryAttrView>::empty());
    }
    let primary_name = if primary.len() > 0 { Some(primary[0].clone()) } else { None };
    let mut delete_query: Vec<(String, String)> = Vec::new();
    let mut j: usize = 0;
    while j < dqs.len()
        invariant
            j <= dqs@.len(),
            all_delete_queries_ok(dqs.deep_view()),
            delete_query@.len() == j,
            forall|k: int| 0 <= k < j ==> {
                &&& (#[trigger] delete_query@[k]).0@ == delete_query_name(dqs.deep_view()[k])
                &&& delete_query@[k].1@ == dqs.deep_view()[k].ident->0
            },
        decreases dqs@.len() - j,
    {
        let d = &dqs[j];
        assert(delete_query_ok(dqs.deep_view()[j as int]));
        assert(dqs.deep_view()[j as int] == d@);
        let ident = match &d.ident {
            Some(x) => x.clone(),
            None => String::new(),
        };
        let name = match &d.alias {
            Some(a) => unquote(a),
            None => ident.clone(),
        };
        delete_query.push((name, ident));
        j = j + 1;
    }
    EntityDerivePlan { primary_name, delete_query }
}

/// Whether the fields can be derived from (see [`derivable`]).
pub fn entity_derivable(data: &Option<Vec<FieldDef>>) -> (r: bool)
    ensures
        r == derivable(match data { Some(fs) => Some(fs.deep_view()), None => None }),
{
    let ghost dv = match data { Some(fs) => Some(fs.deep_view()), None => None };
    let mut primary: Vec<String> = Vec::new();
    let mut dqs: Vec<DeleteQueryAttr> = Vec::new();
    match data {
        None => true,
        Some(fields) => {
            assert(dv == Some(fields.deep_view()));
            let mut i: usize = 0;
            assert(fields.deep_view().subrange(0, 0) =~= Seq::<FieldDefView>::empty());
            assert(primary.deep_view() =~= Seq::<Seq<char>>::empty());
            assert(dqs.deep_view() =~= Seq::<DeleteQueryAttrView>::empty());
            while i < fields.len()
                invariant
                    i <= fields@.len(),
                    (primary.deep_view(), dqs.deep_view()) == fields_fold(fields.deep_view().subrange(0, i as int)),
                decreases fields@.len() - i,
            {
                proof {
                    assert(fields.deep_view().subrange(0, i + 1).drop_last() =~= fields.deep_view().subrange(0, i as int));
                }
                let f = &fields[i];
                if let Some(name) = &f.ident {
                    read_attrs(&f.attrs, name, &mut primary, &mut dqs);
                }
                i = i + 1;
            }
            assert(fields.deep_view().subrange(0, fields@.len() as int) =~= fields.deep_view());
            assert(dqs.deep_view() == fields_fold(fields.deep_view()).1);
            let mut j: usize = 0;
            while j < dqs.len()
                invariant
                    j <= dqs@.len(),
                    dqs.deep_view() == fields_fold(fields.deep_view()).1,
                    dv == Some(fields.deep_view()),
                    dv == (match data { Some(fs) => Some(fs.deep_view()), None => None }),
                    forall|k: int| 0 <= k < j ==> delete_query_ok(#[trigger] dqs.deep_view()[k]),
                decreases dqs@.len() - j,
            {
                let d = &dqs[j];
                let ok = match &d.alias {
                    Some(a) => {
                        let n = a.as_str().unicode_len();
                        n >= 2 && (a.as_str().get_char(0) as u32) < 128 && (a.as_str().get_char(n - 1) as u32) < 128
                    },
                    None => true,
                };
                if d.ident.is_none() || !ok {
                    assert(!delete_query_ok(dqs.deep_view()[j as int]));
                    assert(!all_delete_queries_ok(dqs.deep_view()));
                    return false;
                }
                j = j + 1;
            }
            assert(all_delete_queries_ok(dqs.deep_view()));
            true
        },
    }
}

/// The route of a model: the text of a string literal, or nothing for any
/// other literal.
pub fn model_route(literal_text: Option<String>) -> (r: String)
    ensures
        literal_text matches Some(t) ==> r@ == t@,
        literal_text is None ==> r@ == Seq::<char>::empty(),
{
    match literal_text {
        Some(t) => t,
        None => String::new(),
    }
}

/// The operations a derived model has: listing its entities, creating one
/// and deleting one.
#[derive(Debug, Clone, Copy, PartialEq, Eq, Structural)]
pub enum ModelOp {
    Get,
    Post,
    Delete,
}

/// The request a derived model's operation sends: `GET`, `POST` or `DELETE`
/// to the model's route on the gateway, with the configuration secret as key
/// and no user agent. Creations and deletions carry the model's default
/// entity as JSON body.
pub open spec fn model_request_spec(
    route: Seq<char>,
    remote: RemoteAddr,
    secret: Seq<char>,
    op: ModelOp,
    default_entity: EntityBodyView,
) -> ApiRequestView {
    ApiRequestView {
        method: match op {
            ModelOp::Get => Method::Get,
            ModelOp::Post => Method::Post,
            ModelOp::Delete => Method::Delete,
        },
        uri: route_url_text(remote.ip@, remote.port, route),
        query: Seq::empty(),
        user_agent: None,
        api_key_header: Some(secret),
        body: if op == ModelOp::Get {
            None
        } else {
            Some(default_entity)
        },
    }
}

/// The request of operation `op` of the model served under `route`, whose
/// entity's default value is `default_entity`.
pub fn model_request(route: &str, remote: &RemoteAddr, secret: &str, op: ModelOp, default_entity: EntityBody) -> (r: ApiRequest)
    ensures
        r@ == model_request_spec(route@, *remote, secret@, op, default_entity@),
{
    let method = match op {
        ModelOp::Get => Method::Get,
        ModelOp::Post => Method::Post,
        ModelOp::Delete => Method::Delete,
    };
    let query: Vec<(String, String)> = Vec::new();
    let r = ApiRequest {
        method,
        uri: route_url(remote, route),
        query,
        user_agent: None,
        api_key_header: Some(String::from_str(secret)),
        body: if op == ModelOp::Get {
            None
        } else {
            Some(default_entity)
        },
    };
    assert(r@.query =~= Seq::<(Seq<char>, Seq<char>)>::empty());
    r
}

/// Why a derived model's listing failed.
#[derive(Debug, Clone, Copy, PartialEq, Eq, Structural)]
pub enum ModelGetError {
    /// The gateway answered with another status than 200 or 204.
    Status(u16),
    /// The body is not JSON.
    NotJson,
}

/// The answer to a derived model's listing: with status 200 or 204, the
/// body's JSON to read the entities from (an error when the body is not
/// JSON); with any other status, an error with the status.
pub fn model_get_answer(status: u16, body: &str) -> (r: Result<String, ModelGetError>)
    ensures
        (status == 200 || status == 204) && is_json(body@) ==> (r matches Ok(v) && v@ == body@),
        (status == 200 || status == 204) && !is_json(body@) ==> r == Err::<String, ModelGetError>(
            ModelGetError::NotJson,
        ),
        !(status == 200 || status == 204) ==> r == Err::<String, ModelGetError>(ModelGetError::Status(status)),
{
    if status == 200 || status == 204 {
        if body_is_json(body) {
            Ok(String::from_str(body))
        } else {
            Err(ModelGetError::NotJson)
        }
    } else {
        Err(ModelGetError::Status(status))
    }
}

} // verus!
