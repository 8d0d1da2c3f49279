use vstd::prelude::*;

verus! {

/// Which of the two top-level pages the application window shows.
#[derive(PartialEq, Eq, Structural, Debug, Clone, Copy)]
pub enum Child {
    LoginView,
    MainView,
}

/// Messages the application window accepts.
#[derive(PartialEq, Eq, Structural, Debug, Clone, Copy)]
pub enum AppMsg {
    ToMainView,
}

/// The state of the application window: the page it shows.
pub struct App {
    pub active_child: Child,
}

impl App {
    /// The window starts on the login page.
    pub fn new() -> (app: Self)
        ensures
            app.active_child == Child::LoginView,
    {
        App { active_child: Child::LoginView }
    }

    /// `ToMainView` switches the window to the main page.
    pub fn update(&mut self, msg: AppMsg)
        ensures
            final(self).active_child == Child::MainView,
    {
        match msg {
            AppMsg::ToMainView => self.active_child = Child::MainView,
        }
    }
}

/// How a folder entry is made: its icon, its name and its nesting depth.
#[derive(Debug)]
pub struct FolderInit {
    pub icon_name: String,
    pub folder_name: String,
    pub depth: i32,
}

/// Messages of a folder entry.
#[derive(Debug)]
pub enum FolderInput {
    SetIconName(String),
    SetName(String),
}

/// A folder entry of a mailbox.
#[derive(Clone, Debug)]
pub struct Folder {
    pub icon_name: String,
    pub folder_name: String,
    pub depth: i32,
}

/// A folder entry, by its plain values.
pub struct FolderView {
    pub icon_name: Seq<char>,
    pub folder_name: Seq<char>,
    pub depth: int,
}

impl View for Folder {
    type V = FolderView;

    open spec fn view(&self) -> FolderView {
        FolderView { icon_name: self.icon_name@, folder_name: self.folder_name@, depth: self.depth as int }
    }
}

impl View for FolderInit {
    type V = FolderView;

    open spec fn view(&self) -> FolderView {
        FolderView { icon_name: self.icon_name@, folder_name: self.folder_name@, depth: self.depth as int }
    }
}

/// The indentation of a folder entry, in pixels.
pub open spec fn folder_margin(depth: int) -> int {
    40 * depth
}

impl Folder {
    /// A folder entry holds what it was made with.
    pub fn init_model(value: FolderInit) -> (f: Folder)
        ensures
            f@ == value@,
    {
        Folder { depth: value.depth, icon_name: value.icon_name, folder_name: value.folder_name }
    }

    /// `SetIconName` replaces the icon, `SetName` the name; the rest stays.
    pub fn update(&mut self, msg: FolderInput)
        ensures
            match msg {
                FolderInput::SetIconName(icon) => final(self)@ == (FolderView {
                    icon_name: icon@,
                    ..old(self)@
                }),
                FolderInput::SetName(name) => final(self)@ == (FolderView {
                    folder_name: name@,
                    ..old(self)@
                }),
            },
    {
        match msg {
            FolderInput::SetIconName(icon_name) => {
                self.icon_name = icon_name;
            },
            FolderInput::SetName(folder_name) => {
                self.folder_name = folder_name;
            },
        }
    }

    /// The indentation of the entry: 40 pixels per level of depth.
    pub fn margin_start(&self) -> (m: i32)
        requires
            i32::MIN <= folder_margin(self.depth as int) <= i32::MAX,
        ensures
            m == folder_margin(self.depth as int),
    {
        40 * self.depth
    }
}

/// How a mailbox entry is made: its icon, its name and its folders.
#[derive(Debug)]
pub struct MailboxInit {
    pub icon_name: String,
    pub mailbox_name: String,
    pub folders: Vec<FolderInit>,
}

/// Messages of a mailbox entry.
#[derive(Debug)]
pub enum MailboxInput {
    SetIconName(String),
    SetName(String),
}

/// A mailbox entry with its folders, in the order they were given.
#[derive(Clone, Debug)]
pub struct Mailbox {
    pub icon_name: String,
    pub mailbox_name: String,
    pub folders: Vec<Folder>,
}

/// A mailbox entry, by its plain values.
pub struct MailboxView {
    pub icon_name: Seq<char>,
    pub mailbox_name: Seq<char>,
    pub folders: Seq<FolderView>,
}

/// The folder entries of a list, each by its view.
pub open spec fn folders_view(v: Seq<Folder>) -> Seq<FolderView> {
    v.map_values(|f: Folder| f@)
}

/// The folder descriptions of a list, each by its view.
pub open spec fn folder_inits_view(v: Seq<FolderInit>) -> Seq<FolderView> {
    v.map_values(|f: FolderInit| f@)
}

impl View for Mailbox {
    type V = MailboxView;

    open spec fn view(&self) -> MailboxView {
        MailboxView {
            icon_name: self.icon_name@,
            mailbox_name: self.mailbox_name@,
            folders: folders_view(self.folders@),
        }
    }
}

impl View for MailboxInit {
    type V = MailboxView;

    open spec fn view(&self) -> MailboxView {
        MailboxView {
            icon_name: self.icon_name@,
            mailbox_name: self.mailbox_name@,
            folders: folder_inits_view(self.folders@),
        }
    }
}

impl Mailbox {
    /// A mailbox entry holds what it was made with, its folders in order.
    pub fn init_model(value: MailboxInit) -> (m: Mailbox)
        ensures
            m@ == value@,
    {
        let mut folders: Vec<Folder> = Vec::new();
        let n = value.folders.len();
        let mut i: usize = 0;
        while i < n
            invariant
                n == value.folders.len(),
                i <= n,
                folders@.len() == i,
                folders_view(folders@) == folder_inits_view(value.folders@).take(i as int),
            decreases n - i,
        {
            let f = &value.folders[i];
            let folder = Folder {
                icon_name: f.icon_name.clone(),
                folder_name: f.folder_name.clone(),
                depth: f.depth,
            };
            let ghost before = folders@;
            folders.push(folder);
            proof {
                let target = folder_inits_view(value.folders@).take(i + 1);
                assert forall|j: int| 0 <= j < i + 1 implies folders_view(folders@)[j] == target[j] by {
                    if j < i {
                        assert(folders@[j] == before[j]);
                        assert(folders_view(before)[j] == folder_inits_view(value.folders@).take(
                            i as int,
                        )[j]);
                    } else {
                        assert(folder_inits_view(value.folders@)[j] == value.folders@[j]@);
                    }
                }
                assert(folders_view(folders@) =~= target);
            }
            i = i + 1;
        }
        assert(folder_inits_view(value.folders@).take(n as int) =~= folder_inits_view(
            value.folders@,
        ));
        Mailbox { icon_name: value.icon_name, mailbox_name: value.mailbox_name, folders }
    }

    /// `SetIconName` replaces the icon, `SetName` the name; the folders stay.
    pub fn update(&mut self, msg: MailboxInput)
        ensures
            match msg {
                MailboxInput::SetIconName(icon) => final(self)@ == (MailboxView {
                    icon_name: icon@,
                    ..old(self)@
                }),
                MailboxInput::SetName(name) => final(self)@ == (MailboxView {
                    mailbox_name: name@,
                    ..old(self)@
                }),
            },
    {
        match msg {
            MailboxInput::SetIconName(icon_name) => {
                self.icon_name = icon_name;
            },
            MailboxInput::SetName(mailbox_name) => {
                self.mailbox_name = mailbox_name;
            },
        }
    }
}

/// How the mailbox list is made: its mailboxes, in order.
pub struct MailboxesInit {
    pub mailboxes: Vec<MailboxInit>,
}

/// Messages of the mailbox list.
#[derive(Debug)]
pub enum MailboxesMsg {
    AddMailbox(MailboxInit),
    RemoveMailbox(MailboxInit),
}

/// The mailbox list of the main page.
pub struct MailboxesView {
    pub mailboxes: Vec<Mailbox>,
}

/// The mailbox entries of a list, each by its view.
pub open spec fn mailboxes_view(v: Seq<Mailbox>) -> Seq<MailboxView> {
    v.map_values(|m: Mailbox| m@)
}

/// The mailbox descriptions of a list, each by its view.
pub open spec fn mailbox_inits_view(v: Seq<MailboxInit>) -> Seq<MailboxView> {
    v.map_values(|m: MailboxInit| m@)
}

/// The mailboxes that result from adding each of `adds` in turn to `start`.
pub open spec fn add_all(start: Seq<MailboxView>, adds: Seq<MailboxView>) -> Seq<MailboxView>
    decreases adds.len(),
{
    if adds.len() == 0 {
        start
    } else {
        add_all(start, adds.drop_last()).push(adds.last())
    }
}

impl MailboxesView {
    /// The list holds one entry per mailbox it was made with, in order.
    pub fn init(init: MailboxesInit) -> (v: MailboxesView)
        ensures
            mailboxes_view(v.mailboxes@) == mailbox_inits_view(init.mailboxes@),
    {
        let mut model = MailboxesView { mailboxes: Vec::new() };
        let mut rest = init.mailboxes;
        let ghost all = mailbox_inits_view(rest@);
        let ghost n = all.len();
        while rest.len() > 0
            invariant
                n == all.len(),
                rest.len() <= n,
                mailboxes_view(model.mailboxes@) == all.take(n - rest.len()),
                mailbox_inits_view(rest@) == all.skip(n - rest.len()),
            decreases rest.len(),
        {
            let ghost k = n - rest.len();
            let ghost before = rest@;
            let m = rest.remove(0);
            proof {
                assert(m@ == mailbox_inits_view(before)[0]);
                assert forall|j: int| 0 <= j < rest@.len() implies mailbox_inits_view(rest@)[j]
                    == all.skip(k + 1)[j] by {
                    assert(rest@[j] == before[j + 1]);
                    assert(mailbox_inits_view(before)[j + 1] == all.skip(k)[j + 1]);
                }
                assert(mailbox_inits_view(rest@) =~= all.skip(k + 1));
            }
            model.update(MailboxesMsg::AddMailbox(m));
            proof {
                assert(mailboxes_view(model.mailboxes@) =~= all.take(k + 1));
            }
        }
        assert(all.take(n as int) =~= all);
        model
    }

    /// `AddMailbox` appends an entry for the mailbox at the end of the list
    /// and keeps the others. (`RemoveMailbox` is not implemented.)
    pub fn update(&mut self, msg: MailboxesMsg)
        requires
            msg is AddMailbox,
        ensures
            msg matches MailboxesMsg::AddMailbox(m) ==> mailboxes_view(final(self).mailboxes@)
                == mailboxes_view(old(self).mailboxes@).push(m@),
    {
        match msg {
            MailboxesMsg::AddMailbox(mailbox) => {
                let ghost m = mailbox@;
                let entry = Mailbox::init_model(mailbox);
                self.mailboxes.push(entry);
                assert(mailboxes_view(self.mailboxes@) =~= mailboxes_view(old(self).mailboxes@).push(m));
            },
            MailboxesMsg::RemoveMailbox(_) => {},
        }
    }
}

/// Making the mailbox list from some mailboxes gives the same list as
/// starting empty and adding each of them in turn.
pub proof fn lemma_init_is_adding_each(inits: Seq<MailboxInit>)
    ensures
        add_all(Seq::empty(), mailbox_inits_view(inits)) == mailbox_inits_view(inits),
{
    lemma_add_all_from_empty(mailbox_inits_view(inits));
}

proof fn lemma_add_all_from_empty(adds: Seq<MailboxView>)
    ensures
        add_all(Seq::empty(), adds) == adds,
    decreases adds.len(),
{
    if adds.len() > 0 {
        lemma_add_all_from_empty(adds.drop_last());
        assert(adds.drop_last().push(adds.last()) =~= adds);
    }
}

/// The mailboxes that the main page starts with: one mailbox
/// `dont@dox.myself` with the folder `Inbox` at depth 1.
pub fn main_view_mailboxes() -> (r: MailboxesInit)
    ensures
        r.mailboxes@.len() == 1,
        r.mailboxes@[0].icon_name@ == "mail-symbolic"@,
        r.mailboxes@[0].mailbox_name@ == "dont@dox.myself"@,
        r.mailboxes@[0].folders@.len() == 1,
        r.mailboxes@[0].folders@[0].icon_name@ == "inbox-symbolic"@,
        r.mailboxes@[0].folders@[0].folder_name@ == "Inbox"@,
        r.mailboxes@[0].folders@[0].depth == 1,
{
    let mut folders: Vec<FolderInit> = Vec::new();
    folders.push(
        FolderInit {
            icon_name: String::from_str("inbox-symbolic"),
            folder_name: String::from_str("Inbox"),
            depth: 1,
        },
    );
    let mut mailboxes: Vec<MailboxInit> = Vec::new();
    mailboxes.push(
        MailboxInit {
            icon_name: String::from_str("mail-symbolic"),
            mailbox_name: String::from_str("dont@dox.myself"),
            folders,
        },
    );
    MailboxesInit { mailboxes }
}

} // verus!
