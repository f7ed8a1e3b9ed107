use vstd::prelude::*;
use crate::document::{opt_value, DocValue, DocValueView};
use crate::error::{res_view, ConfigError, ConfigErrorView};
use crate::text::{copy_text, copy_texts, texts};

verus! {

pub open spec fn opt_text(o: Option<String>) -> Option<Seq<char>> {
    match o {
        Some(s) => Some(s@),
        None => None,
    }
}

pub open spec fn opt_texts(o: Option<Vec<String>>) -> Option<Seq<Seq<char>>> {
    match o {
        Some(v) => Some(texts(v@)),
        None => None,
    }
}

/// A required text value.
pub open spec fn text_spec(v: Option<DocValueView>, key: Seq<char>) -> Result<
    Seq<char>,
    ConfigErrorView,
> {
    match v {
        None => Err(ConfigErrorView::MissingRequiredField { field: key }),
        Some(DocValueView::Text(s)) => Ok(s),
        Some(_) => Err(ConfigErrorView::InvalidValue { field: key }),
    }
}

/// An optional text value.
pub open spec fn opt_text_spec(v: Option<DocValueView>, key: Seq<char>) -> Result<
    Option<Seq<char>>,
    ConfigErrorView,
> {
    match v {
        None => Ok(None),
        Some(DocValueView::Text(s)) => Ok(Some(s)),
        Some(_) => Err(ConfigErrorView::InvalidValue { field: key }),
    }
}

/// An optional list of texts.
pub open spec fn opt_list_spec(v: Option<DocValueView>, key: Seq<char>) -> Result<
    Option<Seq<Seq<char>>>,
    ConfigErrorView,
> {
    match v {
        None => Ok(None),
        Some(DocValueView::List(l)) => Ok(Some(l)),
        Some(_) => Err(ConfigErrorView::InvalidValue { field: key }),
    }
}

/// A boolean that takes `default` when absent.
pub open spec fn flag_spec(v: Option<DocValueView>, key: Seq<char>, default: bool) -> Result<
    bool,
    ConfigErrorView,
> {
    match v {
        None => Ok(default),
        Some(DocValueView::Flag(b)) => Ok(b),
        Some(_) => Err(ConfigErrorView::InvalidValue { field: key }),
    }
}

/// A required port number.
pub open spec fn port_spec(v: Option<DocValueView>, key: Seq<char>) -> Result<
    u16,
    ConfigErrorView,
> {
    match v {
        None => Err(ConfigErrorView::MissingRequiredField { field: key }),
        Some(DocValueView::Number(n)) => if n <= 65535 {
            Ok(n as u16)
        } else {
            Err(ConfigErrorView::InvalidValue { field: key })
        },
        Some(_) => Err(ConfigErrorView::InvalidValue { field: key }),
    }
}

pub fn read_text(v: &Option<DocValue>, key: &str) -> (r: Result<String, ConfigError>)
    ensures
        res_view(r) == text_spec(opt_value(*v), key@),
{
    match v {
        None => Err(ConfigError::MissingRequiredField { field: String::from_str(key) }),
        Some(DocValue::Text(s)) => Ok(copy_text(s)),
        Some(_) => Err(ConfigError::InvalidValue { field: String::from_str(key) }),
    }
}

pub fn read_opt_text(v: &Option<DocValue>, key: &str) -> (r: Result<Option<String>, ConfigError>)
    ensures
        match r {
            Ok(o) => opt_text_spec(opt_value(*v), key@) == Ok::<_, ConfigErrorView>(opt_text(o)),
            Err(e) => opt_text_spec(opt_value(*v), key@) == Err::<Option<Seq<char>>, _>(e@),
        },
{
    match v {
        None => Ok(None),
        Some(DocValue::Text(s)) => Ok(Some(copy_text(s))),
        Some(_) => Err(ConfigError::InvalidValue { field: String::from_str(key) }),
    }
}

pub fn read_opt_list(v: &Option<DocValue>, key: &str) -> (r: Result<Option<Vec<String>>, ConfigError>)
    ensures
        match r {
            Ok(o) => opt_list_spec(opt_value(*v), key@) == Ok::<_, ConfigErrorView>(opt_texts(o)),
            Err(e) => opt_list_spec(opt_value(*v), key@) == Err::<Option<Seq<Seq<char>>>, _>(e@),
        },
{
    match v {
        None => Ok(None),
        Some(DocValue::List(l)) => Ok(Some(copy_texts(l))),
        Some(_) => Err(ConfigError::InvalidValue { field: String::from_str(key) }),
    }
}

pub fn read_flag(v: &Option<DocValue>, key: &str, default: bool) -> (r: Result<bool, ConfigError>)
    ensures
        res_view(r) == flag_spec(opt_value(*v), key@, default),
{
    match v {
        None => Ok(default),
        Some(DocValue::Flag(b)) => Ok(*b),
        Some(_) => Err(ConfigError::InvalidValue { field: String::from_str(key) }),
    }
}

pub fn read_port(v: &Option<DocValue>, key: &str) -> (r: Result<u16, ConfigError>)
    ensures
        res_view(r) == port_spec(opt_value(*v), key@),
{
    match v {
        None => Err(ConfigError::MissingRequiredField { field: String::from_str(key) }),
        Some(DocValue::Number(n)) => {
            if *n <= 65535 {
                Ok(*n as u16)
            } else {
                Err(ConfigError::InvalidValue { field: String::from_str(key) })
            }
        },
        Some(_) => Err(ConfigError::InvalidValue { field: String::from_str(key) }),
    }
}

pub fn text_value(s: &String) -> (r: Option<DocValue>)
    ensures
        opt_value(r) == Some(DocValueView::Text(s@)),
{
    Some(DocValue::Text(copy_text(s)))
}

pub fn opt_text_value(o: &Option<String>) -> (r: Option<DocValue>)
    ensures
        opt_value(r) == match opt_text(*o) {
            Some(s) => Some(DocValueView::Text(s)),
            None => None,
        },
{
    match o {
        Some(s) => Some(DocValue::Text(copy_text(s))),
        None => None,
    }
}

pub fn opt_list_value(o: &Option<Vec<String>>) -> (r: Option<DocValue>)
    ensures
        opt_value(r) == match opt_texts(*o) {
            Some(l) => Some(DocValueView::List(l)),
            None => None,
        },
{
    match o {
        Some(l) => Some(DocValue::List(copy_texts(l))),
        None => None,
    }
}

} // verus!
