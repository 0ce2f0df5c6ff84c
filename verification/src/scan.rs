//! The scanner's rules: which files of a vault are indexed, and what
//! document each of them becomes.
//!
//! Walking the directory tree and reading files is the caller's work. It
//! hands over one `ScannedFile` per file it met; the rules here are pure.

use vstd::prelude::*;
use vstd::string::*;

verus! {

/// What reading a file's text gave.
pub enum FileText {
    /// The file was read and decoded as UTF-8.
    Read(String),
    /// The file could not be read, or is not UTF-8.
    Unreadable,
}

/// One file met while walking a vault.
pub struct ScannedFile {
    /// Where the file lies.
    pub path: String,
    /// The last component of `path`.
    pub file_name: String,
    /// The file's text, if it could be read.
    pub content: FileText,
}

/// The unit of indexing.
pub struct Document {
    pub id: String,
    pub path: String,
    pub title: String,
    pub content: String,
    pub tags: String,
}

/// A `ScannedFile` as plain sequences of characters.
pub ghost struct FileModel {
    pub path: Seq<char>,
    pub file_name: Seq<char>,
    pub content: Option<Seq<char>>,
}

/// A `Document` as plain sequences of characters.
pub ghost struct DocumentModel {
    pub id: Seq<char>,
    pub path: Seq<char>,
    pub title: Seq<char>,
    pub content: Seq<char>,
    pub tags: Seq<char>,
}

impl View for FileText {
    type V = Option<Seq<char>>;

    open spec fn view(&self) -> Option<Seq<char>> {
        match self {
            FileText::Read(text) => Some(text@),
            FileText::Unreadable => None,
        }
    }
}

impl View for ScannedFile {
    type V = FileModel;

    open spec fn view(&self) -> FileModel {
        FileModel { path: self.path@, file_name: self.file_name@, content: self.content@ }
    }
}

impl View for Document {
    type V = DocumentModel;

    open spec fn view(&self) -> DocumentModel {
        DocumentModel {
            id: self.id@,
            path: self.path@,
            title: self.title@,
            content: self.content@,
            tags: self.tags@,
        }
    }
}

/// The extension that marks a note, with its dot.
pub open spec fn note_suffix() -> Seq<char> {
    seq!['.', 'm', 'd']
}

/// A file name qualifies when it ends in `.md` and has something before it:
/// a name that is nothing but `.md` is a hidden file without extension.
pub open spec fn is_note_name(name: Seq<char>) -> bool {
    name.len() > 3 && name.subrange(name.len() - 3, name.len() as int) == note_suffix()
}

/// The title of a file: its name without the qualifying extension.
pub open spec fn title_of(name: Seq<char>) -> Seq<char> {
    if is_note_name(name) {
        name.subrange(0, name.len() - 3)
    } else {
        name
    }
}

/// The document that a file becomes. Identity is the path; a file whose text
/// could not be read has an empty body; tags are reserved and empty.
pub open spec fn document_of(file: FileModel) -> DocumentModel {
    DocumentModel {
        id: file.path,
        path: file.path,
        title: title_of(file.file_name),
        content: match file.content {
            Some(text) => text,
            None => Seq::empty(),
        },
        tags: Seq::empty(),
    }
}

/// The documents of a scan: one for each qualifying file, in scan order.
pub open spec fn candidates(files: Seq<FileModel>) -> Seq<DocumentModel>
    decreases files.len(),
{
    if files.len() == 0 {
        Seq::empty()
    } else if is_note_name(files.last().file_name) {
        candidates(files.drop_last()).push(document_of(files.last()))
    } else {
        candidates(files.drop_last())
    }
}

/// The views of a vector of scanned files.
pub open spec fn file_models(files: Seq<ScannedFile>) -> Seq<FileModel> {
    files.map_values(|f: ScannedFile| f@)
}

/// The views of a vector of documents.
pub open spec fn document_models(docs: Seq<Document>) -> Seq<DocumentModel> {
    docs.map_values(|d: Document| d@)
}

/// Whether a file name carries the qualifying extension.
pub fn is_indexable(file_name: &str) -> (qualifies: bool)
    ensures
        qualifies == is_note_name(file_name@),
{
    let n: usize = file_name.unicode_len();
    if n <= 3 {
        return false;
    }
    let dot = file_name.get_char(n - 3);
    let m = file_name.get_char(n - 2);
    let d = file_name.get_char(n - 1);
    proof {
        let tail = file_name@.subrange(n - 3, n as int);
        assert(tail[0] == dot && tail[1] == m && tail[2] == d);
        if dot == '.' && m == 'm' && d == 'd' {
            assert(tail =~= note_suffix());
        } else {
            assert(note_suffix()[0] == '.' && note_suffix()[1] == 'm' && note_suffix()[2] == 'd');
        }
    }
    dot == '.' && m == 'm' && d == 'd'
}

/// The title derived from a file name.
pub fn derive_title(file_name: &str) -> (title: String)
    ensures
        title@ == title_of(file_name@),
{
    if is_indexable(file_name) {
        let n: usize = file_name.unicode_len();
        file_name.substring_char(0, n - 3).to_owned()
    } else {
        file_name.to_owned()
    }
}

/// The candidate document of one file, if the file qualifies.
pub fn candidate(file: &ScannedFile) -> (doc: Option<Document>)
    ensures
        doc is Some <==> is_note_name(file@.file_name),
        doc matches Some(d) ==> d@ == document_of(file@),
{
    if !is_indexable(file.file_name.as_str()) {
        return None;
    }
    let content = match &file.content {
        FileText::Read(text) => text.clone(),
        FileText::Unreadable => String::new(),
    };
    Some(
        Document {
            id: file.path.clone(),
            path: file.path.clone(),
            title: derive_title(file.file_name.as_str()),
            content,
            tags: String::new(),
        },
    )
}

/// The candidate documents of a whole scan, in scan order.
pub fn select_candidates(files: &Vec<ScannedFile>) -> (docs: Vec<Document>)
    ensures
        document_models(docs@) == candidates(file_models(files@)),
{
    let mut docs: Vec<Document> = Vec::new();
    let mut i: usize = 0;
    assert(file_models(files@).take(0) =~= Seq::empty());
    assert(document_models(docs@) =~= Seq::empty());
    while i < files.len()
        invariant
            i <= files.len(),
            document_models(docs@) == candidates(file_models(files@).take(i as int)),
        decreases files.len() - i,
    {
        let ghost before = document_models(docs@);
        let ghost prefix = file_models(files@).take(i as int + 1);
        assert(prefix.drop_last() =~= file_models(files@).take(i as int));
        assert(prefix.last() == files@[i as int]@);
        match candidate(&files[i]) {
            Some(doc) => {
                docs.push(doc);
                assert(document_models(docs@) =~= before.push(doc@));
            },
            None => {},
        }
        i += 1;
    }
    assert(file_models(files@).take(i as int) =~= file_models(files@));
    docs
}

/// The documents of a scan are those of its qualifying files, and of no
/// other file: the scan filtered by name, each file then turned into its
/// document.
pub proof fn lemma_candidates_are_the_notes(files: Seq<FileModel>)
    ensures
        candidates(files) == files.filter(|f: FileModel| is_note_name(f.file_name)).map_values(
            |f: FileModel| document_of(f),
        ),
    decreases files.len(),
{
    reveal(Seq::filter);
    let qualifies = |f: FileModel| is_note_name(f.file_name);
    let document = |f: FileModel| document_of(f);
    if files.len() == 0 {
        assert(files.filter(qualifies).map_values(document) =~= Seq::empty());
    } else {
        lemma_candidates_are_the_notes(files.drop_last());
        let rest = files.drop_last().filter(qualifies);
        if qualifies(files.last()) {
            assert(files.filter(qualifies) == rest.push(files.last()));
            assert(rest.push(files.last()).map_values(document) =~= rest.map_values(document).push(
                document_of(files.last()),
            ));
        } else {
            assert(files.filter(qualifies) == rest);
        }
    }
}

/// Every document of a scan stems from a file that qualifies: a file
/// without the extension contributes nothing to what is indexed.
pub proof fn lemma_candidates_qualify(files: Seq<FileModel>, k: int)
    requires
        0 <= k < candidates(files).len(),
    ensures
        exists|j: int|
            0 <= j < files.len() && is_note_name(#[trigger] files[j].file_name)
                && candidates(files)[k] == document_of(files[j]),
    decreases files.len(),
{
    if files.len() > 0 {
        let rest = files.drop_last();
        if is_note_name(files.last().file_name) && k == candidates(rest).len() {
            let j = files.len() - 1;
            assert(is_note_name(files[j].file_name) && candidates(files)[k] == document_of(files[j]));
        } else {
            lemma_candidates_qualify(rest, k);
            let j = choose|j: int|
                0 <= j < rest.len() && is_note_name(#[trigger] rest[j].file_name)
                    && candidates(rest)[k] == document_of(rest[j]);
            assert(files[j] == rest[j]);
            assert(is_note_name(files[j].file_name) && candidates(files)[k] == document_of(files[j]));
        }
    }
}

/// A scan in which no file qualifies yields no document.
pub proof fn lemma_no_notes_no_candidates(files: Seq<FileModel>)
    requires
        forall|j: int| 0 <= j < files.len() ==> !is_note_name(#[trigger] files[j].file_name),
    ensures
        candidates(files).len() == 0,
    decreases files.len(),
{
    if files.len() > 0 {
        let rest = files.drop_last();
        assert forall|j: int| 0 <= j < rest.len() implies !is_note_name(
            #[trigger] rest[j].file_name,
        ) by {
            assert(rest[j] == files[j]);
        }
        lemma_no_notes_no_candidates(rest);
        assert(files.last() == files[files.len() - 1]);
    }
}

} // verus!
