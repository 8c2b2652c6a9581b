//! The lesson catalog: exercises grouped into chapters, loaded once at
//! startup and never mutated afterwards.

use vstd::prelude::*;
use crate::session::Tutorial;

verus! {

/// One exercise: lesson text plus the code the learner starts from, and the
/// expected output, hint and solution that go with it. The initial code is
/// always present (it may be empty text, never absent).
pub struct Exercise {
    pub title: String,
    pub description: String,
    pub initial_code: String,
    pub expected_output: Option<String>,
    pub hint: Option<String>,
    pub solution: Option<String>,
    pub instructions: Vec<String>,
}

/// One chapter: a title, a description, and a non-empty ordered sequence of
/// exercises.
pub struct Chapter {
    pub title: String,
    pub description: String,
    pub exercises: Vec<Exercise>,
}

/// A catalog is a non-empty ordered sequence of chapters, each holding at
/// least one exercise.
pub open spec fn catalog_wf(chapters: Seq<Chapter>) -> bool {
    &&& chapters.len() > 0
    &&& forall|i: int|
        0 <= i < chapters.len() ==> (#[trigger] chapters[i].exercises)@.len() > 0
}

/// The shape of the built-in catalog: five chapters, the first with two
/// exercises and the rest with one each.
pub open spec fn default_catalog_shape(chapters: Seq<Chapter>) -> bool {
    &&& chapters.len() == 5
    &&& chapters[0].exercises@.len() == 2
    &&& chapters[1].exercises@.len() == 1
    &&& chapters[2].exercises@.len() == 1
    &&& chapters[3].exercises@.len() == 1
    &&& chapters[4].exercises@.len() == 1
    &&& chapters[0].title@ == "Hello World"@
    &&& chapters[1].title@ == "Primitives"@
    &&& chapters[2].title@ == "Custom Types"@
    &&& chapters[3].title@ == "Variable Bindings"@
    &&& chapters[4].title@ == "Functions"@
    &&& chapters[0].exercises@[0].title@ == "Basic Hello World"@
    &&& chapters[0].exercises@[1].title@ == "Comments and Documentation"@
    &&& chapters[1].exercises@[0].title@ == "Scalar Types"@
    &&& chapters[2].exercises@[0].title@ == "Structures"@
    &&& chapters[3].exercises@[0].title@ == "Mutability"@
    &&& chapters[4].exercises@[0].title@ == "Basic Functions"@
    &&& (chapters[0].exercises@[0].expected_output matches Some(e) && e@ == "Hello World!"@)
    &&& (chapters[0].exercises@[1].expected_output matches Some(e) && e@ == "I can comment!"@)
}

fn ex_basic_hello_world() -> (e: Exercise)
    ensures
        e.title@ == "Basic Hello World"@,
        e.expected_output matches Some(x) && x@ == "Hello World!"@,
        e.hint is Some,
        e.solution is Some,
{
    let mut instructions: Vec<String> = Vec::new();
    instructions.push("1. Look at the code above - it's a basic Rust program".to_owned());
    instructions.push("2. The main() function is where your program starts".to_owned());
    instructions.push(
        "3. println! is a macro (note the !) that prints to the console".to_owned(),
    );
    instructions.push("4. Try changing the text inside the quotes".to_owned());
    instructions.push("5. Press 'r' to run the code and see the output".to_owned());
    Exercise {
        title: "Basic Hello World".to_owned(),
        description: "Write your first Rust program that prints 'Hello, World!' to the screen."
            .to_owned(),
        initial_code: r#"// This is a comment, and is ignored by the compiler
// You can test this code by clicking the "Run" button over there ->
// or if you prefer to use your keyboard, you can use the "Ctrl + Enter" shortcut

// This code is editable, feel free to hack it!
// You can always return to the original code by clicking the "Reset" button ->

// This is the main function
fn main() {
    // Statements here are executed when the compiled binary is called

    // Print text to the console
    println!("Hello World!");
}
"#.to_owned(),
        expected_output: Some("Hello World!".to_owned()),
        hint: Some(
            "Use println! macro to print to console. Don't forget the exclamation mark!"
                .to_owned(),
        ),
        solution: Some(r#"fn main() {
    println!("Hello World!");
}"#.to_owned()),
        instructions,
    }
}

fn ex_comments() -> (e: Exercise)
    ensures
        e.title@ == "Comments and Documentation"@,
        e.expected_output matches Some(x) && x@ == "I can comment!"@,
{
    let mut instructions: Vec<String> = Vec::new();
    instructions.push("1. Notice the different comment styles in Rust".to_owned());
    instructions.push("2. // for single line comments".to_owned());
    instructions.push("3. /* */ for block comments".to_owned());
    instructions.push("4. /// for documentation comments".to_owned());
    instructions.push(
        "5. Add a println! statement to make the program output 'I can comment!'".to_owned(),
    );
    Exercise {
        title: "Comments and Documentation".to_owned(),
        description: "Learn about different types of comments in Rust.".to_owned(),
        initial_code: r#"fn main() {
    // This is a line comment
    /* This is a block comment */

    /// This is a documentation comment
    /// Add your own comment here and print something

    // Add a println! statement below

}"#.to_owned(),
        expected_output: Some("I can comment!".to_owned()),
        hint: Some("Add println!(\"I can comment!\"); in the main function".to_owned()),
        solution: Some(r#"fn main() {
    // This is a line comment
    /* This is a block comment */

    /// This is a documentation comment
    /// Add your own comment here and print something

    // Add a println! statement below
    println!("I can comment!");
}"#.to_owned()),
        instructions,
    }
}

fn ex_scalar_types() -> (e: Exercise)
    ensures
        e.title@ == "Scalar Types"@,
        e.expected_output is Some,
{
    let mut instructions: Vec<String> = Vec::new();
    instructions.push("1. Rust has several primitive types".to_owned());
    instructions.push(
        "2. Variables are immutable by default - use 'mut' to make them mutable".to_owned(),
    );
    instructions.push("3. Type annotations can be explicit or inferred".to_owned());
    instructions.push("4. Shadowing allows reusing variable names".to_owned());
    instructions.push("5. Add println! statements to print all the variables".to_owned());
    Exercise {
        title: "Scalar Types".to_owned(),
        description: "Explore Rust's scalar types: integers, floats, booleans, and characters."
            .to_owned(),
        initial_code: r#"fn main() {
    // Variables can be type annotated.
    let logical: bool = true;

    let a_float: f64 = 1.0;  // Regular annotation
    let an_integer   = 5i32; // Suffix annotation

    // Or a default will be used.
    let default_float   = 3.0; // `f64`
    let default_integer = 7;   // `i32`

    // A type can also be inferred from context
    let mut inferred_type = 12; // Type i64 is inferred from another line
    inferred_type = 4294967296i64;

    // A mutable variable's value can be changed.
    let mut mutable = 12; // Mutable `i32`
    mutable = 21;

    // Error! The type of a variable can't be changed.
    // mutable = true;

    // Variables can be overwritten with shadowing.
    let mutable = true;

    // Print all the variables above

}"#.to_owned(),
        expected_output: Some(
            "logical: true\na_float: 1\nan_integer: 5\ndefault_float: 3\ndefault_integer: 7\ninferred_type: 4294967296\nmutable: 21\nmutable: true"
                .to_owned(),
        ),
        hint: Some(
            "Use println! with {} placeholders or println!(\"variable: {}\", variable)"
                .to_owned(),
        ),
        solution: Some(r#"fn main() {
    // Variables can be type annotated.
    let logical: bool = true;

    let a_float: f64 = 1.0;  // Regular annotation
    let an_integer   = 5i32; // Suffix annotation

    // Or a default will be used.
    let default_float   = 3.0; // `f64`
    let default_integer = 7;   // `i32`

    // A type can also be inferred from context
    let mut inferred_type = 12; // Type i64 is inferred from another line
    inferred_type = 4294967296i64;

    // A mutable variable's value can be changed.
    let mut mutable = 12; // Mutable `i32`
    mutable = 21;

    // Error! The type of a variable can't be changed.
    // mutable = true;

    // Variables can be overwritten with shadowing.
    let mutable = true;

    // Print all the variables above
    println!("logical: {}", logical);
    println!("a_float: {}", a_float);
    println!("an_integer: {}", an_integer);
    println!("default_float: {}", default_float);
    println!("default_integer: {}", default_integer);
    println!("inferred_type: {}", inferred_type);
    println!("mutable: {}", mutable);
}"#.to_owned()),
        instructions,
    }
}

fn ex_structures() -> (e: Exercise)
    ensures
        e.title@ == "Structures"@,
        e.expected_output is Some,
{
    let mut instructions: Vec<String> = Vec::new();
    instructions.push("1. Structs are custom data types that group related data".to_owned());
    instructions.push(
        "2. There are three types: classic C-style structs, tuple structs, and unit structs"
            .to_owned(),
    );
    instructions.push("3. {:?} is used for debug printing".to_owned());
    instructions.push(
        "4. #[derive(Debug)] allows a struct to be printed with {:?}".to_owned(),
    );
    instructions.push(
        "5. Add #[derive(Debug)] above the Person struct to make it printable".to_owned(),
    );
    Exercise {
        title: "Structures".to_owned(),
        description: "Define and use custom structs.".to_owned(),
        initial_code: r#"// A struct with named fields
struct Person {
    name: String,
    age: u8,
}

// A unit struct
struct Unit;

// A tuple struct
struct Pair(i32, f32);

fn main() {
    // Create struct with field init shorthand
    let name = String::from("Peter");
    let age = 27;
    let peter = Person { name, age };

    // Print debug struct
    println!("{:?}", peter);

    // Instantiate a unit struct
    let _unit = Unit;

    // Instantiate a tuple struct
    let pair = Pair(1, 0.1);

    // Access the fields of a tuple struct
    println!("pair contains {:?} and {:?}", pair.0, pair.1);

    // Destructure a tuple struct
    let Pair(integer, decimal) = pair;

    println!("pair contains {:?} and {:?}", integer, decimal);
}

// Add #[derive(Debug)] to Person struct to make it printable
"#.to_owned(),
        expected_output: Some(
            "Person { name: \"Peter\", age: 27 }\npair contains 1 and 0.1\npair contains 1 and 0.1"
                .to_owned(),
        ),
        hint: Some("Add #[derive(Debug)] above the Person struct definition".to_owned()),
        solution: Some(r#"// A struct with named fields
#[derive(Debug)]
struct Person {
    name: String,
    age: u8,
}

// A unit struct
struct Unit;

// A tuple struct
struct Pair(i32, f32);

fn main() {
    // Create struct with field init shorthand
    let name = String::from("Peter");
    let age = 27;
    let peter = Person { name, age };

    // Print debug struct
    println!("{:?}", peter);

    // Instantiate a unit struct
    let _unit = Unit;

    // Instantiate a tuple struct
    let pair = Pair(1, 0.1);

    // Access the fields of a tuple struct
    println!("pair contains {:?} and {:?}", pair.0, pair.1);

    // Destructure a tuple struct
    let Pair(integer, decimal) = pair;

    println!("pair contains {:?} and {:?}", integer, decimal);
}"#.to_owned()),
        instructions,
    }
}

fn ex_mutability() -> (e: Exercise)
    ensures
        e.title@ == "Mutability"@,
        e.expected_output is Some,
{
    let mut instructions: Vec<String> = Vec::new();
    instructions.push("1. Variables are immutable by default in Rust".to_owned());
    instructions.push("2. Use 'mut' keyword to make variables mutable".to_owned());
    instructions.push("3. Immutable variables cannot be changed after assignment".to_owned());
    instructions.push("4. Mutable variables can be modified".to_owned());
    instructions.push("5. Create a mutable counter variable and increment it by 5".to_owned());
    Exercise {
        title: "Mutability".to_owned(),
        description: "Understand mutable and immutable bindings.".to_owned(),
        initial_code: r#"fn main() {
    let _immutable_binding = 1;
    let mut mutable_binding = 1;

    println!("Before mutation: {}", mutable_binding);

    // Ok
    mutable_binding += 1;

    println!("After mutation: {}", mutable_binding);

    // Error! Cannot assign a new value to an immutable variable
    // _immutable_binding += 1;

    // Create a mutable variable called 'counter' with initial value 0
    // Increment it by 5 and print the result

}"#.to_owned(),
        expected_output: Some("Before mutation: 1\nAfter mutation: 2\nCounter: 5".to_owned()),
        hint: Some(
            "Use let mut counter = 0; then counter += 5; then println!(\"Counter: {}\", counter);"
                .to_owned(),
        ),
        solution: Some(r#"fn main() {
    let _immutable_binding = 1;
    let mut mutable_binding = 1;

    println!("Before mutation: {}", mutable_binding);

    // Ok
    mutable_binding += 1;

    println!("After mutation: {}", mutable_binding);

    // Error! Cannot assign a new value to an immutable variable
    // _immutable_binding += 1;

    // Create a mutable variable called 'counter' with initial value 0
    let mut counter = 0;
    // Increment it by 5 and print the result
    counter += 5;
    println!("Counter: {}", counter);
}"#.to_owned()),
        instructions,
    }
}

fn ex_basic_functions() -> (e: Exercise)
    ensures
        e.title@ == "Basic Functions"@,
        e.expected_output is Some,
{
    let mut instructions: Vec<String> = Vec::new();
    instructions.push("1. Functions are defined with the 'fn' keyword".to_owned());
    instructions.push("2. Parameters are specified with name: type".to_owned());
    instructions.push("3. Return type is specified with -> type".to_owned());
    instructions.push(
        "4. The last expression in a function is returned (no semicolon)".to_owned(),
    );
    instructions.push(
        "5. Create an 'add' function that takes two i32s and returns their sum".to_owned(),
    );
    Exercise {
        title: "Basic Functions".to_owned(),
        description: "Define and call functions with parameters and return values.".to_owned(),
        initial_code: r#"// Unlike C/C++, there's no restriction on the order of function definitions
fn main() {
    // We can use this function here, and define it somewhere later
    fizzbuzz_to(100);
}

// Function that returns a boolean value
fn is_divisible_by(lhs: u32, rhs: u32) -> bool {
    // Corner case, early return
    if rhs == 0 {
        return false;
    }

    // This is an expression, the last expression is returned
    lhs % rhs == 0
}

// Functions that "don't" return a value, actually return the unit type `()`
fn fizzbuzz(n: u32) -> () {
    if is_divisible_by(n, 15) {
        println!("fizzbuzz");
    } else if is_divisible_by(n, 3) {
        println!("fizz");
    } else if is_divisible_by(n, 5) {
        println!("buzz");
    } else {
        println!("{}", n);
    }
}

// When a function returns `()`, the return type can be omitted from the signature
fn fizzbuzz_to(n: u32) {
    for i in 1..=n {
        fizzbuzz(i);
    }
}

// Create a function called 'add' that takes two i32 parameters and returns their sum
// Call this function in main with values 5 and 3, and print the result
"#.to_owned(),
        expected_output: Some(
            "1\n2\nfizz\n4\nbuzz\nfizz\n7\n8\nfizz\nbuzz\n11\nfizz\n13\n14\nfizzbuzz\n16\n17\nfizz\n19\nbuzz\nfizz\n22\n23\nfizz\nbuzz\n26\nfizz\n28\n29\nfizzbuzz\n31\n32\nfizz\n34\nbuzz\nfizz\n37\n38\nfizz\nbuzz\n41\nfizz\n43\n44\nfizzbuzz\n46\n47\nfizz\n49\nbuzz\nfizz\n52\n53\nfizz\nbuzz\n56\nfizz\n58\n59\nfizzbuzz\n61\n62\nfizz\n64\nbuzz\nfizz\n67\n68\nfizz\nbuzz\n71\nfizz\n73\n74\nfizzbuzz\n76\n77\nfizz\n79\nbuzz\nfizz\n82\n83\nfizz\nbuzz\n86\nfizz\n88\n89\nfizzbuzz\n91\n92\nfizz\n94\nbuzz\nfizz\n97\n98\nfizz\nbuzz\nSum: 8"
                .to_owned(),
        ),
        hint: Some(
            "Create fn add(a: i32, b: i32) -> i32 { a + b } and call it in main".to_owned(),
        ),
        solution: Some(r#"// Unlike C/C++, there's no restriction on the order of function definitions
fn main() {
    // We can use this function here, and define it somewhere later
    fizzbuzz_to(100);

    // Call the add function and print the result
    let result = add(5, 3);
    println!("Sum: {}", result);
}

// Function that returns a boolean value
fn is_divisible_by(lhs: u32, rhs: u32) -> bool {
    // Corner case, early return
    if rhs == 0 {
        return false;
    }

    // This is an expression, the last expression is returned
    lhs % rhs == 0
}

// Functions that "don't" return a value, actually return the unit type `()`
fn fizzbuzz(n: u32) -> () {
    if is_divisible_by(n, 15) {
        println!("fizzbuzz");
    } else if is_divisible_by(n, 3) {
        println!("fizz");
    } else if is_divisible_by(n, 5) {
        println!("buzz");
    } else {
        println!("{}", n);
    }
}

// When a function returns `()`, the return type can be omitted from the signature
fn fizzbuzz_to(n: u32) {
    for i in 1..=n {
        fizzbuzz(i);
    }
}

// Function that takes two i32 parameters and returns their sum
fn add(a: i32, b: i32) -> i32 {
    a + b
}"#.to_owned()),
        instructions,
    }
}

fn chapter_hello_world() -> (c: Chapter)
    ensures
        c.title@ == "Hello World"@,
        c.exercises@.len() == 2,
        c.exercises@[0].title@ == "Basic Hello World"@,
        c.exercises@[1].title@ == "Comments and Documentation"@,
        c.exercises@[0].expected_output matches Some(e) && e@ == "Hello World!"@,
        c.exercises@[1].expected_output matches Some(e) && e@ == "I can comment!"@,
{
    let mut exercises: Vec<Exercise> = Vec::new();
    exercises.push(ex_basic_hello_world());
    exercises.push(ex_comments());
    Chapter {
        title: "Hello World".to_owned(),
        description: "Start with a traditional Hello World program.".to_owned(),
        exercises,
    }
}

fn chapter_primitives() -> (c: Chapter)
    ensures
        c.title@ == "Primitives"@,
        c.exercises@.len() == 1,
        c.exercises@[0].title@ == "Scalar Types"@,
{
    let mut exercises: Vec<Exercise> = Vec::new();
    exercises.push(ex_scalar_types());
    Chapter {
        title: "Primitives".to_owned(),
        description: "Learn about signed integers, unsigned integers and other primitives."
            .to_owned(),
        exercises,
    }
}

fn chapter_custom_types() -> (c: Chapter)
    ensures
        c.title@ == "Custom Types"@,
        c.exercises@.len() == 1,
        c.exercises@[0].title@ == "Structures"@,
{
    let mut exercises: Vec<Exercise> = Vec::new();
    exercises.push(ex_structures());
    Chapter {
        title: "Custom Types".to_owned(),
        description: "Learn about structs and enums.".to_owned(),
        exercises,
    }
}

fn chapter_variable_bindings() -> (c: Chapter)
    ensures
        c.title@ == "Variable Bindings"@,
        c.exercises@.len() == 1,
        c.exercises@[0].title@ == "Mutability"@,
{
    let mut exercises: Vec<Exercise> = Vec::new();
    exercises.push(ex_mutability());
    Chapter {
        title: "Variable Bindings".to_owned(),
        description: "Learn about mutable bindings, scope, and shadowing.".to_owned(),
        exercises,
    }
}

fn chapter_functions() -> (c: Chapter)
    ensures
        c.title@ == "Functions"@,
        c.exercises@.len() == 1,
        c.exercises@[0].title@ == "Basic Functions"@,
{
    let mut exercises: Vec<Exercise> = Vec::new();
    exercises.push(ex_basic_functions());
    Chapter {
        title: "Functions".to_owned(),
        description: "Learn about functions, methods, and closures.".to_owned(),
        exercises,
    }
}

impl Tutorial {
    /// Builds the built-in lesson catalog.
    pub fn create_chapters() -> (chapters: Vec<Chapter>)
        ensures
            catalog_wf(chapters@),
            default_catalog_shape(chapters@),
    {
        let mut chapters: Vec<Chapter> = Vec::new();
        chapters.push(chapter_hello_world());
        chapters.push(chapter_primitives());
        chapters.push(chapter_custom_types());
        chapters.push(chapter_variable_bindings());
        chapters.push(chapter_functions());
        chapters
    }
}

} // verus!
