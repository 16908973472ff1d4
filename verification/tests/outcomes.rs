use rest_scaffold::outcome::Outcome;

fn text(s: &str) -> String {
    s.to_string()
}

fn every_kind() -> Vec<Outcome> {
    vec![
        Outcome::ProjectGenerated { name: text("demo") },
        Outcome::ControllerGenerated { name: text("Order"), path: text("src/controllers/order.js") },
        Outcome::TargetAlreadyExists { path: text("demo") },
        Outcome::ChoiceAborted,
        Outcome::DirectoryCreationFailed { path: text("demo/src/routes"), cause: text("denied") },
        Outcome::FileWriteFailed { path: text("demo/.env"), cause: text("disk full") },
        Outcome::InstallerUnavailable { cause: text("No such file or directory") },
        Outcome::InstallerFailed { stderr_text: text("npm ERR! network") },
    ]
}

#[test]
fn exit_codes_by_kind() {
    let codes: Vec<i32> = every_kind().iter().map(|o| o.exit_code()).collect();
    assert_eq!(codes, vec![0, 0, 1, 2, 3, 4, 0, 0]);
}

#[test]
fn only_the_two_successes_are_successes() {
    let flags: Vec<bool> = every_kind().iter().map(|o| o.is_success()).collect();
    assert_eq!(flags, vec![true, true, false, false, false, false, false, false]);
}

#[test]
fn messages_by_kind() {
    let messages: Vec<String> = every_kind().iter().map(|o| o.message()).collect();
    assert_eq!(
        messages,
        vec![
            text("\nProjet 'demo' généré avec succès ! \u{1F389}\nPour démarrer le projet :\n  cd demo\n  npm start\nOu en mode développement (rechargement automatique) :\n  npm run dev"),
            text("Contrôleur 'Order' généré avec succès dans src/controllers/order.js \u{2705}"),
            text("Erreur: Le dossier 'demo' existe déjà."),
            text("Erreur: la sélection a été interrompue."),
            text("Erreur lors de la création du dossier 'demo/src/routes': denied"),
            text("Échec de l'écriture de demo/.env: disk full"),
            text("\nErreur lors de l'exécution de npm: No such file or directory"),
            text("\nErreur lors de l'installation des dépendances.\nSortie d'erreur de npm:\nnpm ERR! network"),
        ]
    );
}

#[test]
fn copies_are_equal() {
    for outcome in every_kind() {
        assert_eq!(outcome.duplicate(), outcome);
    }
}
