use vstd::prelude::*;
use crate::document::{opt_value, DocValue, DocValueView};
use crate::error::{res_view, ConfigError, ConfigErrorView};
use crate::text::{copy_texts, same_text, texts};

verus! {

/// Which folders the synchronisation takes: all, only those listed, or all
/// but those listed.
#[derive(Clone, Debug, PartialEq, Eq)]
pub enum SyncFoldersStrategyDef {
    All,
    Include(Vec<String>),
    Exclude(Vec<String>),
}

pub enum SyncFoldersStrategyView {
    All,
    Include(Set<Seq<char>>),
    Exclude(Set<Seq<char>>),
}

impl View for SyncFoldersStrategyDef {
    type V = SyncFoldersStrategyView;

    open spec fn view(&self) -> SyncFoldersStrategyView {
        match self {
            SyncFoldersStrategyDef::All => SyncFoldersStrategyView::All,
            SyncFoldersStrategyDef::Include(v) => SyncFoldersStrategyView::Include(
                texts(v@).to_set(),
            ),
            SyncFoldersStrategyDef::Exclude(v) => SyncFoldersStrategyView::Exclude(
                texts(v@).to_set(),
            ),
        }
    }
}

/// The tags of a strategy with a folder list: `include` or its alias `only`,
/// `exclude` or its aliases `except` and `ignore`.
pub open spec fn is_include_tag(t: Seq<char>) -> bool {
    t == "include"@ || t == "only"@
}

pub open spec fn is_exclude_tag(t: Seq<char>) -> bool {
    t == "exclude"@ || t == "except"@ || t == "ignore"@
}

/// The strategy that a value gives: `all`, or a tag with its folders;
/// `All` where the key is not written.
pub open spec fn strategy_spec(v: Option<DocValueView>, key: Seq<char>) -> Result<
    SyncFoldersStrategyView,
    ConfigErrorView,
> {
    match v {
        None => Ok(SyncFoldersStrategyView::All),
        Some(DocValueView::Text(t)) => if t == "all"@ {
            Ok(SyncFoldersStrategyView::All)
        } else {
            Err(ConfigErrorView::InvalidValue { field: key })
        },
        Some(DocValueView::Tagged(t, l)) => if is_include_tag(t) {
            Ok(SyncFoldersStrategyView::Include(l.to_set()))
        } else if is_exclude_tag(t) {
            Ok(SyncFoldersStrategyView::Exclude(l.to_set()))
        } else {
            Err(ConfigErrorView::InvalidValue { field: key })
        },
        Some(_) => Err(ConfigErrorView::InvalidValue { field: key }),
    }
}

impl SyncFoldersStrategyDef {
    /// The strategy for tag `tag` with folder list `folders`, or `None` for an
    /// unknown tag.
    pub fn parse(tag: &str, folders: &Vec<String>) -> (r: Option<SyncFoldersStrategyDef>)
        ensures
            is_include_tag(tag@) ==> r is Some && r->Some_0@ == SyncFoldersStrategyView::Include(
                texts(folders@).to_set(),
            ),
            is_exclude_tag(tag@) ==> r is Some && r->Some_0@ == SyncFoldersStrategyView::Exclude(
                texts(folders@).to_set(),
            ),
            !is_include_tag(tag@) && !is_exclude_tag(tag@) ==> r is None,
    {
        proof {
            lemma_tags_disjoint();
        }
        if same_text(tag, "include") || same_text(tag, "only") {
            Some(SyncFoldersStrategyDef::Include(copy_texts(folders)))
        } else if same_text(tag, "exclude") || same_text(tag, "except") || same_text(
            tag,
            "ignore",
        ) {
            Some(SyncFoldersStrategyDef::Exclude(copy_texts(folders)))
        } else {
            None
        }
    }

    /// The strategy that the value of `key` gives.
    pub fn from_value(v: &Option<DocValue>, key: &str) -> (r: Result<
        SyncFoldersStrategyDef,
        ConfigError,
    >)
        ensures
            res_view(r) == strategy_spec(opt_value(*v), key@),
    {
        match v {
            None => Ok(SyncFoldersStrategyDef::All),
            Some(DocValue::Text(t)) => {
                if same_text(t.as_str(), "all") {
                    Ok(SyncFoldersStrategyDef::All)
                } else {
                    Err(ConfigError::InvalidValue { field: String::from_str(key) })
                }
            },
            Some(DocValue::Tagged(t, l)) => match SyncFoldersStrategyDef::parse(t.as_str(), l) {
                Some(s) => Ok(s),
                None => Err(ConfigError::InvalidValue { field: String::from_str(key) }),
            },
            Some(_) => Err(ConfigError::InvalidValue { field: String::from_str(key) }),
        }
    }

    /// Whether the synchronisation takes folder `name`.
    pub fn takes(&self, name: &str) -> (r: bool)
        ensures
            r == match self@ {
                SyncFoldersStrategyView::All => true,
                SyncFoldersStrategyView::Include(s) => s.contains(name@),
                SyncFoldersStrategyView::Exclude(s) => !s.contains(name@),
            },
    {
        match self {
            SyncFoldersStrategyDef::All => true,
            SyncFoldersStrategyDef::Include(v) => listed(v, name),
            SyncFoldersStrategyDef::Exclude(v) => !listed(v, name),
        }
    }
}

fn listed(v: &Vec<String>, name: &str) -> (r: bool)
    ensures
        r == texts(v@).to_set().contains(name@),
{
    let mut i: usize = 0;
    while i < v.len()
        invariant
            i <= v@.len(),
            forall|j: int| 0 <= j < i ==> v@[j]@ != name@,
        decreases v@.len() - i,
    {
        if same_text(v[i].as_str(), name) {
            assert(texts(v@)[i as int] == name@);
            return true;
        }
        i = i + 1;
    }
    assert(!texts(v@).contains(name@));
    false
}

proof fn lemma_tags_disjoint()
    ensures
        forall|t: Seq<char>| !(is_include_tag(t) && is_exclude_tag(t)),
        !is_include_tag("all"@) && !is_exclude_tag("all"@),
{
    reveal_strlit("only");
    reveal_strlit("include");
    reveal_strlit("except");
    reveal_strlit("exclude");
    reveal_strlit("ignore");
    reveal_strlit("all");
    assert("include"@.len() == 7 && "only"@.len() == 4 && "all"@.len() == 3);
    assert("exclude"@.len() == 7 && "except"@.len() == 6 && "ignore"@.len() == 6);
    assert("exclude"@[0] != "include"@[0]);
    assert("include"@ != "exclude"@);
    assert("include"@ != "except"@);
    assert("include"@ != "ignore"@);
    assert("only"@ != "exclude"@);
    assert("only"@ != "except"@);
    assert("only"@ != "ignore"@);
}

/// The aliases read as the strategies they stand for, with the folders
/// given, and a strategy that is not written is `All`.
pub proof fn lemma_strategy_aliases(folders: Seq<Seq<char>>, key: Seq<char>)
    ensures
        strategy_spec(Some(DocValueView::Tagged("only"@, folders)), key) == Ok::<_, ConfigErrorView>(
            SyncFoldersStrategyView::Include(folders.to_set()),
        ),
        strategy_spec(Some(DocValueView::Tagged("except"@, folders)), key) == Ok::<
            _,
            ConfigErrorView,
        >(SyncFoldersStrategyView::Exclude(folders.to_set())),
        strategy_spec(Some(DocValueView::Tagged("ignore"@, folders)), key) == Ok::<
            _,
            ConfigErrorView,
        >(SyncFoldersStrategyView::Exclude(folders.to_set())),
        strategy_spec(None, key) == Ok::<_, ConfigErrorView>(SyncFoldersStrategyView::All),
{
    reveal_strlit("only");
    reveal_strlit("except");
    reveal_strlit("ignore");
    lemma_tags_disjoint();
}

} // verus!
